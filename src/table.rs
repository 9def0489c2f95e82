use vstd::prelude::*;

use crate::att::AttErrorCode;
use crate::attribute::{
    write_outcome, Attribute, AttributeData, CharacteristicProp, CharacteristicProps, CHARACTERISTIC_CCCD_UUID16,
    CHARACTERISTIC_UUID16, NOTIFY_OR_INDICATE_BITS, PRIMARY_SERVICE_UUID16,
};
use crate::error::Error;
use crate::uuid::Uuid;

verus! {

/// Handles strictly increase along the table.
pub open spec fn handles_increasing<'d>(s: Seq<Attribute<'d>>) -> bool {
    forall|i: int, j: int| 0 <= i < j < s.len() ==> #[trigger] s[i].handle < #[trigger] s[j].handle
}

/// Every service declaration starts on a 16-handle boundary, or is the very first handle.
pub open spec fn services_aligned<'d>(s: Seq<Attribute<'d>>) -> bool {
    forall|i: int|
        0 <= i < s.len() && (#[trigger] s[i]).data is Service ==> s[i].handle == 1 || s[i].handle
            % 16 == 0
}

/// Entry `i` carries the group end of its successor, or its own handle when
/// it ends its group.
pub open spec fn group_link<'d>(s: Seq<Attribute<'d>>, i: int) -> bool {
    if i + 1 == s.len() || s[i + 1].data is Service {
        s[i].last_handle_in_group == s[i].handle
    } else {
        s[i].last_handle_in_group == s[i + 1].last_handle_in_group
    }
}

pub open spec fn groups_closed<'d>(s: Seq<Attribute<'d>>) -> bool {
    forall|i: int| 0 <= i < s.len() ==> #[trigger] group_link(s, i)
}

/// The consistency of a table with no service under construction, whose
/// next handle is `next`.
pub open spec fn table_invariant<'d>(s: Seq<Attribute<'d>>, next: u16) -> bool {
    &&& handles_increasing(s)
    &&& forall|i: int| 0 <= i < s.len() ==> 1 <= (#[trigger] s[i]).handle < next
    &&& s.len() == 0 ==> next == 1
    &&& s.len() > 0 ==> next % 16 == 0 && s[0].data is Service
    &&& next <= 0xFFF0
    &&& services_aligned(s)
    &&& groups_closed(s)
}

/// The index of the last entry in the group of entry `i`: the entry before
/// the next service declaration, or the last of the table.
pub open spec fn group_end<'d>(s: Seq<Attribute<'d>>, i: int) -> int
    decreases s.len() - i,
{
    if i < 0 || i + 1 >= s.len() || s[i + 1].data is Service {
        i
    } else {
        group_end(s, i + 1)
    }
}

/// Whether a characteristic with these properties gets a configuration descriptor.
pub open spec fn has_cccd(props: CharacteristicProps) -> bool {
    props.0 & NOTIFY_OR_INDICATE_BITS != 0
}

/// Handles of a characteristic: its value attribute, and its configuration
/// descriptor if it has one.
#[derive(Debug, Clone, Copy, PartialEq, Eq, Structural)]
pub struct CharacteristicHandle {
    pub cccd_handle: Option<u16>,
    pub handle: u16,
}

/// A primary service to add to a table.
#[derive(Debug, Clone, Copy, PartialEq, Eq)]
pub struct Service {
    pub uuid: Uuid,
}

impl Service {
    pub fn new(uuid: Uuid) -> (r: Service)
        ensures
            r.uuid == uuid,
    {
        Service { uuid }
    }
}

/// The entries of a table, at most `MAX`.
pub struct InnerTable<'d, const MAX: usize> {
    attributes: Vec<Attribute<'d>>,
}

impl<'d, const MAX: usize> InnerTable<'d, MAX> {
    pub closed spec fn entries(&self) -> Seq<Attribute<'d>> {
        self.attributes@
    }

    /// Appends an entry; the table must have room for it.
    fn push(&mut self, attribute: Attribute<'d>)
        requires
            old(self).entries().len() < MAX,
        ensures
            final(self).entries() == old(self).entries().push(attribute),
    {
        self.attributes.push(attribute);
    }
}

/// A handle-indexed attribute database of at most `MAX` entries.
pub struct AttributeTable<'d, const MAX: usize> {
    inner: InnerTable<'d, MAX>,
    handle: u16,
}

impl<'d, const MAX: usize> AttributeTable<'d, MAX> {
    /// The entries, in insertion order.
    pub closed spec fn attributes(&self) -> Seq<Attribute<'d>> {
        self.inner.attributes@
    }

    /// The handle the next entry will get.
    pub closed spec fn next_handle(&self) -> u16 {
        self.handle
    }

    pub open spec fn wf(&self) -> bool {
        &&& self.attributes().len() <= MAX
        &&& table_invariant(self.attributes(), self.next_handle())
    }

    /// An empty table; the first handle is 1.
    pub fn new() -> (r: Self)
        ensures
            r.wf(),
            r.attributes().len() == 0,
            r.next_handle() == 1,
    {
        AttributeTable { inner: InnerTable { attributes: Vec::new() }, handle: 1 }
    }

    /// Number of entries.
    pub fn len(&self) -> (r: usize)
        ensures
            r == self.attributes().len(),
    {
        self.inner.attributes.len()
    }

    /// Appends an entry under the next handle.
    fn push(&mut self, attribute: Attribute<'d>) -> (r: u16)
        requires
            old(self).attributes().len() < MAX,
            old(self).next_handle() < 0xFFFF,
        ensures
            r == old(self).next_handle(),
            final(self).next_handle() == old(self).next_handle() + 1,
            final(self).attributes() == old(self).attributes().push(
                Attribute { handle: r, ..attribute },
            ),
    {
        let handle = self.handle;
        let mut attribute = attribute;
        attribute.handle = handle;
        self.inner.push(attribute);
        self.handle = self.handle + 1;
        handle
    }

    /// Starts a primary service. The table comes back from the builder's
    /// `finish`, which closes the service's group.
    pub fn add_service(self, service: Service) -> (r: ServiceBuilder<'d, MAX>)
        requires
            self.wf(),
            self.attributes().len() < MAX,
            self.next_handle() + 1 < 0xFFF0,
        ensures
            r.wf(),
            r.start() == self.attributes().len(),
            r.next_handle() == self.next_handle() + 1,
            r.attributes() == self.attributes().push(
                Attribute {
                    uuid: Uuid::short(PRIMARY_SERVICE_UUID16),
                    handle: self.next_handle(),
                    last_handle_in_group: 0,
                    data: AttributeData::Service { uuid: service.uuid },
                },
            ),
    {
        let len = self.inner.attributes.len();
        let mut table = self;
        let ghost prefix = table.inner.attributes@;
        table.push(
            Attribute {
                uuid: Uuid::new_short(PRIMARY_SERVICE_UUID16),
                handle: 0,
                last_handle_in_group: 0,
                data: AttributeData::Service { uuid: service.uuid },
            },
        );
        let r = ServiceBuilder { table, start: len };
        assert(r.table.inner.attributes@.subrange(0, len as int) =~= prefix);
        r
    }

    /// Replaces the value of the data attribute at `handle`, whose storage
    /// must be exactly as long as `input`.
    pub fn set(&mut self, handle: CharacteristicHandle, input: &[u8]) -> (r: Result<(), Error>)
        requires
            old(self).wf(),
            forall|k: int|
                0 <= k < old(self).attributes().len() && #[trigger] old(self).attributes()[k].handle
                    == handle.handle && old(self).attributes()[k].data is Data ==> old(
                    self,
                ).attributes()[k].data.value().len() == input@.len(),
        ensures
            final(self).wf(),
            final(self).next_handle() == old(self).next_handle(),
            final(self).attributes().len() == old(self).attributes().len(),
            (exists|k: int|
                0 <= k < old(self).attributes().len() && #[trigger] old(self).attributes()[k].handle
                    == handle.handle && old(self).attributes()[k].data is Data) <==> r is Ok,
            r is Err ==> r == Err::<(), Error>(Error::NotFound) && final(self).attributes() == old(
                self,
            ).attributes(),
            r is Ok ==> exists|k: int|
                0 <= k < old(self).attributes().len() && #[trigger] old(self).attributes()[k].handle
                    == handle.handle && old(self).attributes()[k].data is Data && {
                    let a = old(self).attributes()[k];
                    let b = final(self).attributes()[k];
                    &&& b.uuid == a.uuid
                    &&& b.handle == a.handle
                    &&& b.last_handle_in_group == a.last_handle_in_group
                    &&& b.data is Data
                    &&& b.data.props() == a.data.props()
                    &&& b.data.value() == input@
                    &&& forall|j: int|
                        0 <= j < old(self).attributes().len() && j != k ==> final(self).attributes()[j] == old(self).attributes()[j]
                },
    {
        let mut i: usize = 0;
        while i < self.inner.attributes.len()
            invariant
                *self == *old(self),
                table_invariant(self.inner.attributes@, self.handle),
                self.inner.attributes@.len() <= MAX,
                i <= self.inner.attributes@.len(),
                forall|k: int|
                    0 <= k < i ==> !(#[trigger] self.inner.attributes@[k].handle == handle.handle
                        && self.inner.attributes@[k].data is Data),
            decreases self.inner.attributes@.len() - i,
        {
            if self.inner.attributes[i].handle == handle.handle {
                let props = match &self.inner.attributes[i].data {
                    AttributeData::Data { props, .. } => Some(*props),
                    _ => None,
                };
                match props {
                    Some(props) => {
                        let ghost before = self.inner.attributes@;
                        let value = vstd::slice::slice_to_vec(input);
                        self.inner.attributes[i].data = AttributeData::Data { props, value };
                        assert(self.inner.attributes@.len() == before.len());
                        assert forall|j: int|
                            0 <= j < before.len() && j != i implies self.inner.attributes@[j]
                            == before[j] by {}
                        proof {
                            lemma_set_keeps_invariant(before, self.inner.attributes@, self.handle, i as int);
                        }
                        return Ok(());
                    },
                    None => {},
                }
            }
            i += 1;
        }
        Err(Error::NotFound)
    }

    /// Writes `data` at `offset` into the entry at `handle`, by the rules of
    /// its kind.
    pub fn write(&mut self, handle: u16, offset: usize, data: &[u8]) -> (r: Result<
        (),
        AttErrorCode,
    >)
        requires
            old(self).wf(),
        ensures
            final(self).wf(),
            final(self).next_handle() == old(self).next_handle(),
            final(self).attributes().len() == old(self).attributes().len(),
            (exists|k: int|
                0 <= k < old(self).attributes().len() && #[trigger] old(self).attributes()[k].handle
                    == handle) ==> exists|k: int|
                0 <= k < old(self).attributes().len() && #[trigger] old(self).attributes()[k].handle
                    == handle && {
                    let a = old(self).attributes()[k];
                    let b = final(self).attributes()[k];
                    &&& write_outcome(a.data, b.data, offset, data@, r)
                    &&& b.uuid == a.uuid
                    &&& b.handle == a.handle
                    &&& b.last_handle_in_group == a.last_handle_in_group
                    &&& forall|j: int|
                        0 <= j < old(self).attributes().len() && j != k ==> final(self).attributes()[j]
                            == old(self).attributes()[j]
                },
            !(exists|k: int|
                0 <= k < old(self).attributes().len() && #[trigger] old(self).attributes()[k].handle
                    == handle) ==> r == Err::<(), AttErrorCode>(AttErrorCode::InvalidHandle)
                && final(self).attributes() == old(self).attributes(),
    {
        let mut i: usize = 0;
        while i < self.inner.attributes.len()
            invariant
                *self == *old(self),
                table_invariant(self.inner.attributes@, self.handle),
                self.inner.attributes@.len() <= MAX,
                i <= self.inner.attributes@.len(),
                forall|k: int|
                    0 <= k < i ==> #[trigger] self.inner.attributes@[k].handle != handle,
            decreases self.inner.attributes@.len() - i,
        {
            if self.inner.attributes[i].handle == handle {
                let ghost before = self.inner.attributes@;
                let r = self.inner.attributes[i].data.write(offset, data);
                assert(self.inner.attributes@.len() == before.len());
                assert forall|j: int|
                    0 <= j < before.len() && j != i implies self.inner.attributes@[j]
                    == before[j] by {}
                proof {
                    lemma_set_keeps_invariant(before, self.inner.attributes@, self.handle, i as int);
                }
                assert(old(self).attributes()[i as int].handle == handle);
                return r;
            }
            i += 1;
        }
        Err(AttErrorCode::InvalidHandle)
    }

    /// Runs `f` on the value of the data attribute at `handle`.
    pub fn get<F, T>(&self, handle: CharacteristicHandle, f: F) -> (r: Result<T, Error>) where
        F: FnOnce(&[u8]) -> T,

        requires
            forall|v: &[u8]| #[trigger] f.requires((v,)),
        ensures
            (exists|k: int|
                0 <= k < self.attributes().len() && #[trigger] self.attributes()[k].handle
                    == handle.handle && self.attributes()[k].data is Data) <==> r is Ok,
            r is Err ==> r == Err::<T, Error>(Error::NotFound),
            r is Ok ==> exists|k: int, v: &[u8]|
                0 <= k < self.attributes().len() && #[trigger] self.attributes()[k].handle
                    == handle.handle && self.attributes()[k].data is Data && v@ == self.attributes()[k].data.value()
                    && #[trigger] f.ensures((v,), r->Ok_0),
    {
        let mut i: usize = 0;
        while i < self.inner.attributes.len()
            invariant
                forall|v: &[u8]| #[trigger] f.requires((v,)),
                i <= self.inner.attributes@.len(),
                forall|k: int|
                    0 <= k < i ==> !(#[trigger] self.inner.attributes@[k].handle == handle.handle
                        && self.inner.attributes@[k].data is Data),
            decreases self.inner.attributes@.len() - i,
        {
            if self.inner.attributes[i].handle == handle.handle {
                match &self.inner.attributes[i].data {
                    AttributeData::Data { value, .. } => {
                        let v = value.as_slice();
                        let t = f(v);
                        let r: Result<T, Error> = Ok(t);
                        assert(self.inner.attributes@[i as int].handle == handle.handle);
                        assert(v@ == self.inner.attributes@[i as int].data.value());
                        assert(f.ensures((v,), r->Ok_0));
                        assert(self.attributes()[i as int].handle == handle.handle);
                        return r;
                    },
                    _ => {},
                }
            }
            i += 1;
        }
        Err(Error::NotFound)
    }

    /// A cursor over the entries, front to back.
    pub fn iterate<'t>(&'t self) -> (r: AttributeIterator<'t, 'd>)
        ensures
            r.pos() == 0,
            r.entries() == self.attributes(),
    {
        AttributeIterator { attributes: self.inner.attributes.as_slice(), pos: 0 }
    }
}

impl<'d, const MAX: usize> Default for AttributeTable<'d, MAX> {
    fn default() -> (r: Self)
        ensures
            r.wf(),
            r.attributes().len() == 0,
            r.next_handle() == 1,
    {
        Self::new()
    }
}

/// Replacing the data of one entry keeps handles, groups and alignment.
proof fn lemma_set_keeps_invariant<'d>(
    before: Seq<Attribute<'d>>,
    after: Seq<Attribute<'d>>,
    next: u16,
    i: int,
)
    requires
        table_invariant(before, next),
        0 <= i < before.len(),
        after.len() == before.len(),
        forall|j: int| 0 <= j < before.len() && j != i ==> after[j] == before[j],
        after[i].handle == before[i].handle,
        after[i].last_handle_in_group == before[i].last_handle_in_group,
        after[i].data is Service <==> before[i].data is Service,
    ensures
        table_invariant(after, next),
{
    assert forall|j: int| 0 <= j < after.len() implies #[trigger] group_link(after, j) by {
        assert(group_link(before, j));
    }
    assert forall|a: int, b: int| 0 <= a < b < after.len() implies #[trigger] after[a].handle
        < #[trigger] after[b].handle by {
        assert(before[a].handle < before[b].handle);
    }
    assert forall|j: int|
        0 <= j < after.len() && (#[trigger] after[j]).data is Service implies after[j].handle == 1
        || after[j].handle % 16 == 0 by {
        assert(before[j].data is Service);
    }
    assert forall|j: int| 0 <= j < after.len() implies 1 <= (#[trigger] after[j]).handle < next by {
        assert(1 <= before[j].handle < next);
    }
}

/// Builds one service on a table it holds until `finish`.
pub struct ServiceBuilder<'d, const MAX: usize> {
    table: AttributeTable<'d, MAX>,
    start: usize,
}

/// The consistency of a table whose last service, from index `start`, is
/// under construction.
pub open spec fn builder_invariant<'d>(s: Seq<Attribute<'d>>, start: int, next: u16) -> bool {
    &&& 0 <= start < s.len()
    &&& table_invariant(s.subrange(0, start), s[start].handle)
    &&& s[start].data is Service
    &&& forall|i: int| start < i < s.len() ==> !((#[trigger] s[i]).data is Service)
    &&& handles_increasing(s)
    &&& forall|i: int| 0 <= i < s.len() ==> 1 <= (#[trigger] s[i]).handle < next
    &&& s[s.len() - 1].handle + 1 == next
    &&& next < 0xFFF0
}

impl<'d, const MAX: usize> ServiceBuilder<'d, MAX> {
    pub closed spec fn attributes(&self) -> Seq<Attribute<'d>> {
        self.table.inner.attributes@
    }

    pub closed spec fn next_handle(&self) -> u16 {
        self.table.handle
    }

    /// Index of the service declaration this builder started with.
    pub closed spec fn start(&self) -> int {
        self.start as int
    }

    pub open spec fn wf(&self) -> bool {
        &&& self.attributes().len() <= MAX
        &&& builder_invariant(self.attributes(), self.start(), self.next_handle())
    }

    fn add_characteristic_internal(
        &mut self,
        uuid: Uuid,
        props: CharacteristicProps,
        data: AttributeData<'d>,
    ) -> (r: CharacteristicHandle)
        requires
            old(self).wf(),
            !(data is Service),
            old(self).attributes().len() + 2 + (if has_cccd(props) { 1int } else { 0 }) <= MAX,
            old(self).next_handle() + 3 < 0xFFF0,
        ensures
            characteristic_added(*old(self), *final(self), uuid, props, data, r),
    {
        let next = self.table.handle + 1;
        let cccd = self.table.handle + 2;
        let ghost s0 = self.table.inner.attributes@;
        let ghost h0 = self.table.handle;
        self.table.push(
            Attribute {
                uuid: Uuid::new_short(CHARACTERISTIC_UUID16),
                handle: 0,
                last_handle_in_group: 0,
                data: AttributeData::Declaration { props, handle: next, uuid },
            },
        );
        self.table.push(Attribute { uuid, handle: 0, last_handle_in_group: 0, data });
        let notify_or_indicate = [CharacteristicProp::Notify, CharacteristicProp::Indicate];
        let with_cccd = props.any(notify_or_indicate.as_slice());
        proof {
            let p = props.0;
            assert(p & 0x30u8 != 0u8 <==> (0x10u8 & p != 0u8 || 0x20u8 & p != 0u8)) by (bit_vector);
            assert(notify_or_indicate@[0].spec_bit() == 0x10u8);
            assert(notify_or_indicate@[1].spec_bit() == 0x20u8);
            assert(with_cccd == has_cccd(props));
        }
        let cccd_handle = if with_cccd {
            self.table.push(
                Attribute {
                    uuid: Uuid::new_short(CHARACTERISTIC_CCCD_UUID16),
                    handle: 0,
                    last_handle_in_group: 0,
                    data: AttributeData::Cccd { notifications: false, indications: false },
                },
            );
            Some(cccd)
        } else {
            None
        };
        let ghost s1 = self.table.inner.attributes@;
        assert(s1.subrange(0, self.start as int) =~= s0.subrange(0, self.start as int));
        assert forall|a: int, b: int| 0 <= a < b < s1.len() implies #[trigger] s1[a].handle
            < #[trigger] s1[b].handle by {
            if b >= s0.len() && a < s0.len() {
                assert(s0[a].handle < h0);
            }
        }
        CharacteristicHandle { handle: next, cccd_handle }
    }

    /// Adds a characteristic whose value lives in `storage`, of fixed length:
    /// its declaration, its value and, with Notify or Indicate, a configuration
    /// descriptor.
    pub fn add_characteristic(
        &mut self,
        uuid: Uuid,
        props: &[CharacteristicProp],
        storage: Vec<u8>,
    ) -> (r: CharacteristicHandle)
        requires
            old(self).wf(),
            old(self).attributes().len() + 2 + (if has_cccd(
                CharacteristicProps(crate::attribute::props_bits(props@)),
            ) { 1int } else { 0 }) <= MAX,
            old(self).next_handle() + 3 < 0xFFF0,
        ensures
            characteristic_added(
                *old(self),
                *final(self),
                uuid,
                CharacteristicProps(crate::attribute::props_bits(props@)),
                AttributeData::Data {
                    props: CharacteristicProps(crate::attribute::props_bits(props@)),
                    value: storage,
                },
                r,
            ),
    {
        let props = CharacteristicProps::from_props(props);
        self.add_characteristic_internal(uuid, props, AttributeData::Data { props, value: storage })
    }

    /// Adds a read-only characteristic whose value is `value`.
    pub fn add_characteristic_ro(&mut self, uuid: Uuid, value: &'d [u8]) -> (r:
        CharacteristicHandle)
        requires
            old(self).wf(),
            old(self).attributes().len() + 2 <= MAX,
            old(self).next_handle() + 3 < 0xFFF0,
        ensures
            characteristic_added(
                *old(self),
                *final(self),
                uuid,
                CharacteristicProps(0x02),
                AttributeData::ReadOnlyData { props: CharacteristicProps(0x02), value },
                r,
            ),
    {
        let props = CharacteristicProps(0x02);
        assert(0x02u8 & 0x30u8 == 0u8) by (bit_vector);
        self.add_characteristic_internal(uuid, props, AttributeData::ReadOnlyData { props, value })
    }

    /// Closes the service: every entry of its group gets the group's last
    /// handle, and the next service will start on the next 16-handle boundary.
    pub fn finish(self) -> (r: AttributeTable<'d, MAX>)
        requires
            self.wf(),
        ensures
            r.wf(),
            r.next_handle() == self.next_handle() + (16 - self.next_handle() % 16),
            r.attributes().len() == self.attributes().len(),
            forall|i: int| 0 <= i < self.start() ==> r.attributes()[i] == self.attributes()[i],
            forall|i: int|
                self.start() <= i < self.attributes().len() ==> r.attributes()[i] == (Attribute {
                    last_handle_in_group: (self.next_handle() - 1) as u16,
                    ..self.attributes()[i]
                }),
    {
        let mut b = self;
        let last_handle = b.table.handle - 1;
        let ghost s0 = b.table.inner.attributes@;
        let mut i: usize = b.start;
        while i < b.table.inner.attributes.len()
            invariant
                b.start == self.start,
                b.table.handle == self.table.handle,
                b.start <= i <= s0.len(),
                b.table.inner.attributes@.len() == s0.len(),
                forall|j: int|
                    0 <= j < s0.len() ==> #[trigger] b.table.inner.attributes@[j] == if b.start <= j < i {
                        Attribute { last_handle_in_group: last_handle, ..s0[j] }
                    } else {
                        s0[j]
                    },
            decreases s0.len() - i,
        {
            b.table.inner.attributes[i].last_handle_in_group = last_handle;
            i += 1;
        }
        let mut table = b.table;
        table.handle = table.handle + (0x10 - (table.handle % 0x10));
        proof {
            lemma_finish_closes(s0, table.inner.attributes@, b.start as int, self.table.handle, table.handle);
        }
        table
    }
}

/// What adding one characteristic does to a builder.
pub open spec fn characteristic_added<'d, const MAX: usize>(
    pre: ServiceBuilder<'d, MAX>,
    post: ServiceBuilder<'d, MAX>,
    uuid: Uuid,
    props: CharacteristicProps,
    data: AttributeData<'d>,
    r: CharacteristicHandle,
) -> bool {
    let h = pre.next_handle();
    let decl = Attribute {
        uuid: Uuid::short(CHARACTERISTIC_UUID16),
        handle: h,
        last_handle_in_group: 0,
        data: AttributeData::Declaration { props, handle: (h + 1) as u16, uuid },
    };
    let val = Attribute { uuid, handle: (h + 1) as u16, last_handle_in_group: 0, data };
    let cccd = Attribute {
        uuid: Uuid::short(CHARACTERISTIC_CCCD_UUID16),
        handle: (h + 2) as u16,
        last_handle_in_group: 0,
        data: AttributeData::Cccd { notifications: false, indications: false },
    };
    &&& post.wf()
    &&& post.start() == pre.start()
    &&& r.handle == h + 1
    &&& if has_cccd(props) {
        &&& post.attributes() == pre.attributes().push(decl).push(val).push(cccd)
        &&& post.next_handle() == h + 3
        &&& r.cccd_handle == Some((h + 2) as u16)
    } else {
        &&& post.attributes() == pre.attributes().push(decl).push(val)
        &&& post.next_handle() == h + 2
        &&& r.cccd_handle is None
    }
}

/// Back-filling the group of a builder closes the table.
proof fn lemma_finish_closes<'d>(
    s0: Seq<Attribute<'d>>,
    s1: Seq<Attribute<'d>>,
    start: int,
    next: u16,
    new_next: u16,
)
    requires
        builder_invariant(s0, start, next),
        new_next == next + (16 - next % 16),
        s1.len() == s0.len(),
        forall|j: int|
            0 <= j < s0.len() ==> #[trigger] s1[j] == if start <= j {
                Attribute { last_handle_in_group: (next - 1) as u16, ..s0[j] }
            } else {
                s0[j]
            },
    ensures
        table_invariant(s1, new_next),
{
    let p = s0.subrange(0, start);
    assert forall|a: int, b: int| 0 <= a < b < s1.len() implies #[trigger] s1[a].handle
        < #[trigger] s1[b].handle by {
        assert(s0[a].handle < s0[b].handle);
    }
    assert forall|j: int| 0 <= j < s1.len() implies 1 <= (#[trigger] s1[j]).handle < new_next by {
        assert(1 <= s0[j].handle < next);
    }
    assert forall|j: int|
        0 <= j < s1.len() && (#[trigger] s1[j]).data is Service implies s1[j].handle == 1
        || s1[j].handle % 16 == 0 by {
        if j < start {
            assert(p[j] == s0[j]);
        } else {
            assert(j == start);
            if start > 0 {
                assert(p[0].data is Service);
            }
        }
    }
    assert forall|j: int| 0 <= j < s1.len() implies #[trigger] group_link(s1, j) by {
        if j < start {
            assert(group_link(p, j));
            assert(p[j] == s0[j]);
            if j + 1 < start {
                assert(p[j + 1] == s0[j + 1]);
            }
        }
    }
    if start > 0 {
        assert(p[0] == s0[0]);
    }
}

/// Handles along the table strictly increase.
pub proof fn lemma_handle_monotonicity<'d, const MAX: usize>(t: &AttributeTable<'d, MAX>)
    requires
        t.wf(),
    ensures
        forall|i: int|
            0 <= i < t.attributes().len() - 1 ==> #[trigger] t.attributes()[i].handle
                < t.attributes()[i + 1].handle,
{
    assert forall|i: int| 0 <= i < t.attributes().len() - 1 implies #[trigger] t.attributes()[i].handle
        < t.attributes()[i + 1].handle by {
        let s = t.attributes();
        assert(s[i].handle < s[i + 1].handle);
    }
}

/// Entry `i`'s `last_handle_in_group` is the largest handle of its group:
/// the handle of the group's last entry, which no handle of the group
/// exceeds, and which every later entry of the group carries too.
pub open spec fn group_closed_at<'d>(s: Seq<Attribute<'d>>, i: int) -> bool {
    let e = group_end(s, i);
    &&& i <= e < s.len()
    &&& s[i].last_handle_in_group == s[e].handle
    &&& forall|j: int| i <= j <= e ==> s[j].handle <= s[i].last_handle_in_group
    &&& forall|j: int| i <= j <= e ==> s[j].last_handle_in_group == s[i].last_handle_in_group
}

/// Every entry's `last_handle_in_group` is the largest handle of its group.
pub proof fn lemma_group_closure<'d, const MAX: usize>(t: &AttributeTable<'d, MAX>)
    requires
        t.wf(),
    ensures
        forall|i: int|
            0 <= i < t.attributes().len() ==> #[trigger] group_closed_at(t.attributes(), i),
{
    let s = t.attributes();
    assert forall|i: int| 0 <= i < s.len() implies #[trigger] group_closed_at(s, i) by {
        lemma_group_end(s, i);
    }
}

proof fn lemma_group_end<'d>(s: Seq<Attribute<'d>>, i: int)
    requires
        0 <= i < s.len(),
        handles_increasing(s),
        groups_closed(s),
    ensures
        group_closed_at(s, i),
    decreases s.len() - i,
{
    assert(group_link(s, i));
    if i + 1 >= s.len() || s[i + 1].data is Service {
    } else {
        lemma_group_end(s, i + 1);
        let e = group_end(s, i);
        assert forall|j: int| i <= j <= e implies s[j].handle <= s[i].last_handle_in_group by {
            if j == i {
                assert(s[i].handle < s[i + 1].handle);
            }
        }
    }
}

/// The first entry of every service sits on a 16-handle boundary, or is handle 1.
pub proof fn lemma_services_aligned<'d, const MAX: usize>(t: &AttributeTable<'d, MAX>)
    requires
        t.wf(),
    ensures
        t.attributes().len() > 0 ==> t.attributes()[0].data is Service,
        forall|i: int|
            0 <= i < t.attributes().len() && (#[trigger] t.attributes()[i]).data is Service
                ==> t.attributes()[i].handle == 1 || t.attributes()[i].handle % 16 == 0,
{
}

/// Walks the entries of a table front to back.
pub struct AttributeIterator<'a, 'd> {
    attributes: &'a [Attribute<'d>],
    pos: usize,
}

impl<'a, 'd> AttributeIterator<'a, 'd> {
    pub closed spec fn entries(&self) -> Seq<Attribute<'d>> {
        self.attributes@
    }

    pub closed spec fn pos(&self) -> int {
        self.pos as int
    }

    /// The next entry, if any.
    pub fn next(&mut self) -> (r: Option<&'a Attribute<'d>>)
        requires
            old(self).pos() <= old(self).entries().len(),
        ensures
            final(self).entries() == old(self).entries(),
            final(self).pos() <= final(self).entries().len(),
            old(self).pos() < old(self).entries().len() ==> r is Some && *r.unwrap() == old(
                self,
            ).entries()[old(self).pos()] && final(self).pos() == old(self).pos() + 1,
            old(self).pos() == old(self).entries().len() ==> r is None && final(self).pos() == old(
                self,
            ).pos(),
    {
        if self.pos < self.attributes.len() {
            let a = &self.attributes[self.pos];
            self.pos += 1;
            Some(a)
        } else {
            None
        }
    }
}

} // verus!
