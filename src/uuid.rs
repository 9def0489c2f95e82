use vstd::prelude::*;

use crate::codec::le16;

verus! {

/// A Bluetooth UUID, in its 16-bit or 128-bit form, stored as its
/// little-endian wire bytes.
#[derive(Debug, Clone, Copy, PartialEq, Eq)]
pub enum Uuid {
    Uuid16([u8; 2]),
    Uuid128([u8; 16]),
}

impl Uuid {
    /// The wire bytes: 2 for a short UUID, 16 for a long one.
    pub open spec fn raw(self) -> Seq<u8> {
        match self {
            Uuid::Uuid16(b) => b@,
            Uuid::Uuid128(b) => b@,
        }
    }

    pub open spec fn is_short(self) -> bool {
        self is Uuid16
    }

    /// The short UUID with value `val`.
    pub open spec fn short(val: u16) -> Uuid {
        Uuid::Uuid16([(val % 256) as u8, (val / 256) as u8])
    }

    pub fn new_short(val: u16) -> (r: Uuid)
        ensures
            r == Uuid::short(val),
            r.raw() == le16(val),
    {
        let r = Uuid::Uuid16([(val % 256) as u8, (val / 256) as u8]);
        assert(r.raw() =~= le16(val));
        r
    }

    pub fn new_long(val: [u8; 16]) -> (r: Uuid)
        ensures
            r == Uuid::Uuid128(val),
            r.raw() == val@,
    {
        Uuid::Uuid128(val)
    }

    /// Copies the wire bytes into `data`, which must be exactly as long.
    pub fn bytes(&self, data: &mut [u8])
        requires
            old(data)@.len() == self.raw().len(),
        ensures
            final(data)@ == self.raw(),
    {
        let raw = self.as_raw();
        let mut i: usize = 0;
        while i < raw.len()
            invariant
                raw@ == self.raw(),
                data@.len() == raw@.len(),
                i <= raw@.len(),
                forall|j: int| 0 <= j < i ==> data@[j] == raw@[j],
            decreases raw@.len() - i,
        {
            data[i] = raw[i];
            i += 1;
        }
        assert(data@ =~= self.raw());
    }

    /// The format code used in a Find Information response: 1 for 16-bit, 2 for 128-bit.
    pub fn get_type(&self) -> (r: u8)
        ensures
            r == (if self.is_short() { 1u8 } else { 2u8 }),
    {
        match self {
            Uuid::Uuid16(_) => 0x01,
            Uuid::Uuid128(_) => 0x02,
        }
    }

    /// Length of a Read By Group Type response entry carrying this UUID:
    /// two handles followed by the UUID bytes.
    pub fn len(&self) -> (r: usize)
        ensures
            r == self.raw().len() + 4,
    {
        match self {
            Uuid::Uuid16(_) => 6,
            Uuid::Uuid128(_) => 20,
        }
    }

    /// The wire bytes.
    pub fn as_raw(&self) -> (r: &[u8])
        ensures
            r@ == self.raw(),
    {
        match self {
            Uuid::Uuid16(uuid) => uuid.as_slice(),
            Uuid::Uuid128(uuid) => uuid.as_slice(),
        }
    }

    /// The UUID whose wire bytes are `data`, if `data` has 2 or 16 bytes.
    pub fn from_slice(data: &[u8]) -> (r: Option<Uuid>)
        ensures
            data@.len() == 2 ==> r == Some(Uuid::Uuid16([data@[0], data@[1]])),
            data@.len() == 16 ==> r is Some && r.unwrap() is Uuid128 && r.unwrap().raw()
                == data@,
            data@.len() != 2 && data@.len() != 16 ==> r is None,
    {
        if data.len() == 2 {
            Some(Uuid::Uuid16([data[0], data[1]]))
        } else if data.len() == 16 {
            let b = [
                data[0],
                data[1],
                data[2],
                data[3],
                data[4],
                data[5],
                data[6],
                data[7],
                data[8],
                data[9],
                data[10],
                data[11],
                data[12],
                data[13],
                data[14],
                data[15],
            ];
            assert(b@ =~= data@);
            Some(Uuid::Uuid128(b))
        } else {
            None
        }
    }
}

impl From<u16> for Uuid {
    fn from(data: u16) -> (r: Uuid) {
        Uuid::Uuid16([(data % 256) as u8, (data / 256) as u8])
    }
}

impl vstd::std_specs::convert::FromSpecImpl<u16> for Uuid {
    open spec fn obeys_from_spec() -> bool {
        true
    }

    open spec fn from_spec(v: u16) -> Uuid {
        Uuid::short(v)
    }
}

} // verus!
