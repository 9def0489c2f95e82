use vstd::prelude::*;

verus! {

/// Failure of a bounded byte read or write.
#[derive(Debug, Clone, Copy, PartialEq, Eq, Structural)]
pub enum CodecError {
    /// The destination has no room left, or an element cannot be framed.
    InsufficientSpace,
    /// The source bytes do not describe a value.
    InvalidValue,
}

/// The two little-endian bytes of a 16-bit value.
pub open spec fn le16(v: u16) -> Seq<u8> {
    seq![(v % 256) as u8, (v / 256) as u8]
}

/// The 16-bit value held by two little-endian bytes.
pub open spec fn from_le16(lo: u8, hi: u8) -> u16 {
    (lo as int + 256 * hi as int) as u16
}

/// Encodes a 16-bit value as two little-endian bytes.
pub fn u16_to_le(v: u16) -> (r: [u8; 2])
    ensures
        r@ == le16(v),
{
    let r = [(v % 256) as u8, (v / 256) as u8];
    assert(r@ =~= le16(v));
    r
}

/// Decodes two little-endian bytes into a 16-bit value.
pub fn u16_from_le(lo: u8, hi: u8) -> (r: u16)
    ensures
        r == from_le16(lo, hi),
        le16(r) == seq![lo, hi],
{
    let r = lo as u16 + 256 * (hi as u16);
    assert(le16(r) =~= seq![lo, hi]);
    r
}

} // verus!
