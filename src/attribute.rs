use vstd::prelude::*;

use crate::att::AttErrorCode;
use crate::codec::le16;
use crate::cursor::WriteCursor;
use crate::uuid::Uuid;

verus! {

pub const GENERIC_ACCESS_SERVICE_UUID16: u16 = 0x1800;
pub const CHARACTERISTIC_DEVICE_NAME_UUID16: u16 = 0x2A00;
pub const CHARACTERISTIC_APPEARANCE_UUID16: u16 = 0x2A03;
pub const GENERIC_ATTRIBUTE_SERVICE_UUID16: u16 = 0x1801;
/// Type of a primary service declaration.
pub const PRIMARY_SERVICE_UUID16: u16 = 0x2800;
/// Type of a characteristic declaration.
pub const CHARACTERISTIC_UUID16: u16 = 0x2803;
/// Type of a client characteristic configuration descriptor.
pub const CHARACTERISTIC_CCCD_UUID16: u16 = 0x2902;

/// One characteristic property.
#[derive(Debug, Clone, Copy, PartialEq, Eq, Structural)]
pub enum CharacteristicProp {
    Broadcast,
    Read,
    WriteWithoutResponse,
    Write,
    Notify,
    Indicate,
    AuthenticatedWrite,
    Extended,
}

impl CharacteristicProp {
    /// The bit of this property in a declaration's properties byte.
    pub open spec fn spec_bit(self) -> u8 {
        match self {
            CharacteristicProp::Broadcast => 0x01,
            CharacteristicProp::Read => 0x02,
            CharacteristicProp::WriteWithoutResponse => 0x04,
            CharacteristicProp::Write => 0x08,
            CharacteristicProp::Notify => 0x10,
            CharacteristicProp::Indicate => 0x20,
            CharacteristicProp::AuthenticatedWrite => 0x40,
            CharacteristicProp::Extended => 0x80,
        }
    }

    pub fn bit(&self) -> (r: u8)
        ensures
            r == self.spec_bit(),
    {
        match self {
            CharacteristicProp::Broadcast => 0x01,
            CharacteristicProp::Read => 0x02,
            CharacteristicProp::WriteWithoutResponse => 0x04,
            CharacteristicProp::Write => 0x08,
            CharacteristicProp::Notify => 0x10,
            CharacteristicProp::Indicate => 0x20,
            CharacteristicProp::AuthenticatedWrite => 0x40,
            CharacteristicProp::Extended => 0x80,
        }
    }
}

/// The bitwise union of the properties in `s`.
pub open spec fn props_bits(s: Seq<CharacteristicProp>) -> u8
    decreases s.len(),
{
    if s.len() == 0 {
        0
    } else {
        props_bits(s.drop_last()) | s.last().spec_bit()
    }
}

/// A properties byte, as carried by a characteristic declaration.
#[derive(Debug, Clone, Copy, PartialEq, Eq, Structural)]
pub struct CharacteristicProps(pub u8);

pub const READ_BIT: u8 = 0x02;
pub const WRITE_BITS: u8 = 0x4C;
pub const NOTIFY_OR_INDICATE_BITS: u8 = 0x30;

impl CharacteristicProps {
    /// The union of `props`.
    pub fn from_props(props: &[CharacteristicProp]) -> (r: CharacteristicProps)
        ensures
            r.0 == props_bits(props@),
    {
        let mut val: u8 = 0;
        let mut i: usize = 0;
        while i < props.len()
            invariant
                i <= props@.len(),
                val == props_bits(props@.subrange(0, i as int)),
            decreases props@.len() - i,
        {
            assert(props@.subrange(0, i + 1).drop_last() =~= props@.subrange(0, i as int));
            val = val | props[i].bit();
            i += 1;
        }
        assert(props@.subrange(0, props@.len() as int) =~= props@);
        CharacteristicProps(val)
    }

    /// Whether any of `props` is set.
    pub fn any(&self, props: &[CharacteristicProp]) -> (r: bool)
        ensures
            r == exists|i: int| 0 <= i < props@.len() && #[trigger] props@[i].spec_bit() & self.0 != 0,
    {
        let mut i: usize = 0;
        while i < props.len()
            invariant
                i <= props@.len(),
                forall|j: int| 0 <= j < i ==> #[trigger] props@[j].spec_bit() & self.0 == 0,
            decreases props@.len() - i,
        {
            if props[i].bit() & self.0 != 0 {
                return true;
            }
            i += 1;
        }
        false
    }
}

impl<'a> From<&'a [CharacteristicProp]> for CharacteristicProps {
    fn from(props: &'a [CharacteristicProp]) -> (r: CharacteristicProps) {
        CharacteristicProps::from_props(props)
    }
}

impl<'a> vstd::std_specs::convert::FromSpecImpl<&'a [CharacteristicProp]> for CharacteristicProps {
    open spec fn obeys_from_spec() -> bool {
        true
    }

    open spec fn from_spec(v: &'a [CharacteristicProp]) -> CharacteristicProps {
        CharacteristicProps(props_bits(v@))
    }
}

impl<const T: usize> From<[CharacteristicProp; T]> for CharacteristicProps {
    fn from(props: [CharacteristicProp; T]) -> (r: CharacteristicProps) {
        CharacteristicProps::from_props(props.as_slice())
    }
}

impl<const T: usize> vstd::std_specs::convert::FromSpecImpl<[CharacteristicProp; T]> for CharacteristicProps {
    open spec fn obeys_from_spec() -> bool {
        true
    }

    open spec fn from_spec(v: [CharacteristicProp; T]) -> CharacteristicProps {
        CharacteristicProps(props_bits(v@))
    }
}

/// The first byte of a configuration descriptor's value.
pub open spec fn cccd_byte(notifications: bool, indications: bool) -> u8 {
    ((if notifications { 1int } else { 0int }) + (if indications { 2int } else { 0int })) as u8
}

/// The contents of an attribute, by kind.
#[allow(inconsistent_fields)]
#[derive(Debug)]
pub enum AttributeData<'d> {
    /// A primary service declaration; its value is the service UUID.
    Service { uuid: Uuid },
    /// A characteristic value that never changes.
    ReadOnlyData { props: CharacteristicProps, value: &'d [u8] },
    /// A characteristic value held in storage of fixed length.
    Data { props: CharacteristicProps, value: Vec<u8> },
    /// A characteristic declaration: properties, value handle and UUID.
    Declaration { props: CharacteristicProps, handle: u16, uuid: Uuid },
    /// A client characteristic configuration descriptor.
    Cccd { notifications: bool, indications: bool },
}

impl<'d> AttributeData<'d> {
    /// The bytes a read sees, from offset 0.
    pub open spec fn value(&self) -> Seq<u8> {
        match self {
            AttributeData::Service { uuid } => uuid.raw(),
            AttributeData::ReadOnlyData { value, .. } => value@,
            AttributeData::Data { value, .. } => value@,
            AttributeData::Declaration { props, handle, uuid } => seq![props.0] + le16(*handle)
                + uuid.raw(),
            AttributeData::Cccd { notifications, indications } => seq![
                cccd_byte(*notifications, *indications),
                0u8,
            ],
        }
    }

    /// The properties byte of data and declarations.
    pub open spec fn props(&self) -> CharacteristicProps {
        match self {
            AttributeData::ReadOnlyData { props, .. } => *props,
            AttributeData::Data { props, .. } => *props,
            AttributeData::Declaration { props, .. } => *props,
            _ => CharacteristicProps(0),
        }
    }

    pub open spec fn spec_readable(&self) -> bool {
        match self {
            AttributeData::Data { props, .. } => props.0 & READ_BIT != 0,
            _ => true,
        }
    }

    pub open spec fn spec_writable(&self) -> bool {
        match self {
            AttributeData::Data { props, .. } => props.0 & WRITE_BITS != 0,
            AttributeData::Cccd { .. } => true,
            _ => false,
        }
    }

    /// Readable unless it is data without the Read property.
    pub fn readable(&self) -> (r: bool)
        ensures
            r == self.spec_readable(),
    {
        match self {
            AttributeData::Data { props, .. } => props.0 & READ_BIT != 0,
            _ => true,
        }
    }

    /// Writable if it is data with Write, Write Without Response or
    /// Authenticated Write, or a configuration descriptor.
    pub fn writable(&self) -> (r: bool)
        ensures
            r == self.spec_writable(),
    {
        match self {
            AttributeData::Data { props, .. } => props.0 & WRITE_BITS != 0,
            AttributeData::Cccd { .. } => true,
            _ => false,
        }
    }

    /// Reads the value from `offset` into the front of `data` and returns
    /// how many bytes were written.
    pub fn read(&self, offset: usize, data: &mut [u8]) -> (r: Result<usize, AttErrorCode>)
        ensures
            !self.spec_readable() ==> r == Err::<usize, AttErrorCode>(
                AttErrorCode::ReadNotPermitted,
            ) && final(data)@ == old(data)@,
            self.spec_readable() && self is Cccd ==> {
                &&& offset > 0 ==> r == Err::<usize, AttErrorCode>(AttErrorCode::InvalidOffset)
                    && final(data)@ == old(data)@
                &&& offset == 0 && old(data)@.len() < 2 ==> r == Err::<usize, AttErrorCode>(
                    AttErrorCode::UnlikelyError,
                ) && final(data)@ == old(data)@
                &&& offset == 0 && old(data)@.len() >= 2 ==> r == Ok::<usize, AttErrorCode>(2)
                    && final(data)@ == self.value() + old(data)@.subrange(
                    2,
                    old(data)@.len() as int,
                )
            },
            self.spec_readable() && !(self is Cccd) ==> {
                &&& offset > self.value().len() ==> r == Ok::<usize, AttErrorCode>(0)
                    && final(data)@ == old(data)@
                &&& offset <= self.value().len() ==> {
                    let n = if old(data)@.len() < self.value().len() - offset {
                        old(data)@.len() as int
                    } else {
                        self.value().len() - offset
                    };
                    &&& r == Ok::<usize, AttErrorCode>(n as usize)
                    &&& final(data)@ == self.value().subrange(offset as int, offset + n) + old(
                        data,
                    )@.subrange(n, old(data)@.len() as int)
                }
            },
    {
        if !self.readable() {
            return Err(AttErrorCode::ReadNotPermitted);
        }
        match self {
            AttributeData::ReadOnlyData { value, .. } => Ok(copy_window(value, offset, data)),
            AttributeData::Data { value, .. } => Ok(copy_window(value.as_slice(), offset, data)),
            AttributeData::Service { uuid } => Ok(copy_window(uuid.as_raw(), offset, data)),
            AttributeData::Cccd { notifications, indications } => {
                if offset > 0 {
                    return Err(AttErrorCode::InvalidOffset);
                }
                if data.len() < 2 {
                    return Err(AttErrorCode::UnlikelyError);
                }
                let mut v: u8 = 0;
                if *notifications {
                    v = v + 1;
                }
                if *indications {
                    v = v + 2;
                }
                data[0] = v;
                data[1] = 0;
                assert(data@ =~= self.value() + old(data)@.subrange(2, old(data)@.len() as int));
                Ok(2)
            },
            AttributeData::Declaration { props, handle, uuid } => {
                let mut w = WriteCursor::new(19);
                let _ = w.write_u8(props.0);
                let _ = w.write_u16(*handle);
                let _ = w.append(uuid.as_raw());
                let bytes = w.into_bytes();
                assert(bytes@ =~= self.value());
                Ok(copy_window(bytes.as_slice(), offset, data))
            },
        }
    }

    /// Writes `data` into the value at `offset`.
    pub fn write(&mut self, offset: usize, data: &[u8]) -> (r: Result<(), AttErrorCode>)
        ensures
            write_outcome(*old(self), *final(self), offset, data@, r),
    {
        let writable = self.writable();
        match self {
            AttributeData::Data { value, .. } => {
                if !writable {
                    return Err(AttErrorCode::WriteNotPermitted);
                }
                if offset < value.len() && data.len() < value.len() - offset {
                    let ghost before = value@;
                    let vlen = value.len();
                    let mut i: usize = 0;
                    while i < data.len()
                        invariant
                            vlen == before.len(),
                            offset + data@.len() < before.len(),
                            value@.len() == before.len(),
                            i <= data@.len(),
                            forall|j: int|
                                0 <= j < value@.len() ==> #[trigger] value@[j] == if offset <= j
                                    < offset + i {
                                    data@[j - offset]
                                } else {
                                    before[j]
                                },
                        decreases data@.len() - i,
                    {
                        value.set(offset + i, data[i]);
                        i += 1;
                    }
                    assert(value@ =~= before.subrange(0, offset as int) + data@ + before.subrange(
                        offset + data@.len(),
                        before.len() as int,
                    ));
                    Ok(())
                } else {
                    Err(AttErrorCode::InvalidOffset)
                }
            },
            AttributeData::Cccd { notifications, indications } => {
                if offset > 0 {
                    return Err(AttErrorCode::InvalidOffset);
                }
                if data.len() == 0 {
                    return Err(AttErrorCode::UnlikelyError);
                }
                *notifications = data[0] & 0x01 != 0;
                *indications = data[0] & 0x02 != 0;
                Ok(())
            },
            _ => Err(AttErrorCode::WriteNotPermitted),
        }
    }
}

/// Copies `src` from `offset` into the front of `dest`, as far as both
/// reach, and returns the count; nothing when `offset` is past the end.
fn copy_window(src: &[u8], offset: usize, dest: &mut [u8]) -> (r: usize)
    ensures
        offset > src@.len() ==> r == 0 && final(dest)@ == old(dest)@,
        offset <= src@.len() ==> {
            let n = if old(dest)@.len() < src@.len() - offset {
                old(dest)@.len() as int
            } else {
                src@.len() - offset
            };
            &&& r == n
            &&& final(dest)@ == src@.subrange(offset as int, offset + n) + old(dest)@.subrange(
                n,
                old(dest)@.len() as int,
            )
        },
{
    if offset > src.len() {
        return 0;
    }
    let n = if dest.len() < src.len() - offset {
        dest.len()
    } else {
        src.len() - offset
    };
    let slen = src.len();
    let mut i: usize = 0;
    while i < n
        invariant
            slen == src@.len(),
            n <= dest@.len(),
            offset + n <= src@.len(),
            dest@.len() == old(dest)@.len(),
            i <= n,
            forall|j: int|
                0 <= j < dest@.len() ==> #[trigger] dest@[j] == if j < i {
                    src@[offset + j]
                } else {
                    old(dest)@[j]
                },
        decreases n - i,
    {
        dest[i] = src[offset + i];
        i += 1;
    }
    assert(dest@ =~= src@.subrange(offset as int, offset + n) + old(dest)@.subrange(
        n as int,
        old(dest)@.len() as int,
    ));
    n
}

/// What a write of `data` at `offset` does: `pre` is the attribute before,
/// `post` after, `r` the outcome.
pub open spec fn write_outcome<'d>(
    pre: AttributeData<'d>,
    post: AttributeData<'d>,
    offset: usize,
    data: Seq<u8>,
    r: Result<(), AttErrorCode>,
) -> bool {
    match pre {
        AttributeData::Data { props, value } => {
            if !pre.spec_writable() {
                r == Err::<(), AttErrorCode>(AttErrorCode::WriteNotPermitted) && post == pre
            } else if offset + data.len() < value@.len() {
                &&& r is Ok
                &&& post is Data
                &&& post.props() == props
                &&& post.value() == value@.subrange(0, offset as int) + data + value@.subrange(
                    offset + data.len(),
                    value@.len() as int,
                )
            } else {
                r == Err::<(), AttErrorCode>(AttErrorCode::InvalidOffset) && post == pre
            }
        },
        AttributeData::Cccd { .. } => {
            if offset > 0 {
                r == Err::<(), AttErrorCode>(AttErrorCode::InvalidOffset) && post == pre
            } else if data.len() == 0 {
                r == Err::<(), AttErrorCode>(AttErrorCode::UnlikelyError) && post == pre
            } else {
                r is Ok && post == cccd_written::<'d>(data)
            }
        },
        _ => r == Err::<(), AttErrorCode>(AttErrorCode::WriteNotPermitted) && post == pre,
    }
}

/// The configuration descriptor left by a write of `data` (not empty) at offset 0.
pub open spec fn cccd_written<'d>(data: Seq<u8>) -> AttributeData<'d> {
    AttributeData::Cccd { notifications: data[0] & 1 != 0, indications: data[0] & 2 != 0 }
}

/// Writing `[b, 0]` to a configuration descriptor, for `b` from 0 to 3, turns
/// notifications on exactly when bit 0 of `b` is set and indications exactly
/// when bit 1 is, and a read afterwards yields the same two bytes.
pub proof fn lemma_cccd_round_trip<'d>(b: u8)
    requires
        b <= 3,
    ensures
        ({
            let d = cccd_written::<'d>(seq![b, 0u8]);
            &&& d.value() == seq![b, 0u8]
            &&& d == AttributeData::Cccd {
                notifications: b == 1 || b == 3,
                indications: b == 2 || b == 3,
            }
        }),
{
    assert(b & 1 != 0 <==> (b == 1 || b == 3)) by (bit_vector)
        requires
            b <= 3,
    ;
    assert(b & 2 != 0 <==> (b == 2 || b == 3)) by (bit_vector)
        requires
            b <= 3,
    ;
    let d = cccd_written::<'d>(seq![b, 0u8]);
    assert(d.value() =~= seq![b, 0u8]);
}

/// One entry of an attribute table.
#[derive(Debug)]
pub struct Attribute<'a> {
    pub uuid: Uuid,
    pub handle: u16,
    pub last_handle_in_group: u16,
    pub data: AttributeData<'a>,
}

impl<'a> Attribute<'a> {
    /// An attribute not yet placed in a table.
    pub fn new(uuid: Uuid, data: AttributeData<'a>) -> (r: Attribute<'a>)
        ensures
            r == (Attribute { uuid, handle: 0, last_handle_in_group: 0xffff, data }),
    {
        Attribute { uuid, handle: 0, data, last_handle_in_group: 0xffff }
    }
}

} // verus!
