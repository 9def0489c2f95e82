use vstd::prelude::*;

verus! {

/// Address kind of a public device address.
pub const ADDR_KIND_PUBLIC: u8 = 0;
/// Address kind of a random device address.
pub const ADDR_KIND_RANDOM: u8 = 1;

/// A Bluetooth device address and its kind.
#[derive(Debug, Clone, Copy, PartialEq, Eq)]
pub struct Address {
    pub kind: u8,
    pub addr: [u8; 6],
}

impl Address {
    /// A random device address.
    pub fn random(val: [u8; 6]) -> (r: Address)
        ensures
            r.kind == ADDR_KIND_RANDOM,
            r.addr == val,
    {
        Address { kind: ADDR_KIND_RANDOM, addr: val }
    }
}

} // verus!
