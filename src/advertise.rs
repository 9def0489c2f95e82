use vstd::prelude::*;

use crate::codec::{le16, CodecError};
use crate::cursor::WriteCursor;
use crate::uuid::Uuid;

verus! {

pub const AD_FLAG_LE_LIMITED_DISCOVERABLE: u8 = 0b00000001;
pub const LE_GENERAL_DISCOVERABLE: u8 = 0b00000010;
pub const BR_EDR_NOT_SUPPORTED: u8 = 0b00000100;
pub const SIMUL_LE_BR_CONTROLLER: u8 = 0b00001000;
pub const SIMUL_LE_BR_HOST: u8 = 0b00010000;

/// One element of advertising or scan-response data.
#[derive(Debug, Clone, Copy, PartialEq, Eq)]
pub enum AdStructure<'a> {
    /// Device flags and baseband capabilities.
    ///
    /// This should be sent if any flags apply to the device. If not (ie. the value sent would be
    /// 0), this may be omitted.
    ///
    /// Must not be used in scan response data.
    Flags(u8),
    ServiceUuids16(&'a [Uuid]),
    ServiceUuids128(&'a [Uuid]),
    /// Service data with 16-bit service UUID.
    ServiceData16 {
        /// The 16-bit service UUID.
        uuid: u16,
        /// The associated service data. May be empty.
        data: &'a [u8],
    },
    /// Sets the full (unabbreviated) device name.
    ///
    /// This will be shown to the user when this device is found.
    CompleteLocalName(&'a [u8]),
    /// Sets the shortened device name.
    ShortenedLocalName(&'a [u8]),
    /// Set manufacturer specific data
    ManufacturerSpecificData { company_identifier: u16, payload: &'a [u8] },
    /// An unknown or unimplemented AD structure stored as raw bytes.
    Unknown {
        /// Type byte.
        ty: u8,
        /// Raw data transmitted after the type.
        data: &'a [u8],
    },
}

/// What an AD element holds, as plain values.
pub enum AdElement {
    Flags(u8),
    ServiceUuids16(Seq<Uuid>),
    ServiceUuids128(Seq<Uuid>),
    ServiceData16 { uuid: u16, data: Seq<u8> },
    CompleteLocalName(Seq<u8>),
    ShortenedLocalName(Seq<u8>),
    ManufacturerSpecificData { company_identifier: u16, payload: Seq<u8> },
    Unknown { ty: u8, data: Seq<u8> },
}

impl<'a> View for AdStructure<'a> {
    type V = AdElement;

    open spec fn view(&self) -> AdElement {
        match *self {
            AdStructure::Flags(f) => AdElement::Flags(f),
            AdStructure::ServiceUuids16(u) => AdElement::ServiceUuids16(u@),
            AdStructure::ServiceUuids128(u) => AdElement::ServiceUuids128(u@),
            AdStructure::ServiceData16 { uuid, data } => AdElement::ServiceData16 {
                uuid,
                data: data@,
            },
            AdStructure::CompleteLocalName(n) => AdElement::CompleteLocalName(n@),
            AdStructure::ShortenedLocalName(n) => AdElement::ShortenedLocalName(n@),
            AdStructure::ManufacturerSpecificData { company_identifier, payload } =>
                AdElement::ManufacturerSpecificData { company_identifier, payload: payload@ },
            AdStructure::Unknown { ty, data } => AdElement::Unknown { ty, data: data@ },
        }
    }
}

/// The wire bytes of a list of UUIDs, one after the other.
pub open spec fn uuids_bytes(s: Seq<Uuid>) -> Seq<u8>
    decreases s.len(),
{
    if s.len() == 0 {
        Seq::empty()
    } else {
        uuids_bytes(s.drop_last()) + s.last().raw()
    }
}

/// The type byte of an element.
pub open spec fn ad_type(a: AdElement) -> u8 {
    match a {
        AdElement::Flags(_) => 0x01,
        AdElement::ServiceUuids16(_) => 0x02,
        AdElement::ServiceUuids128(_) => 0x07,
        AdElement::ServiceData16 { .. } => 0x16,
        AdElement::CompleteLocalName(_) => 0x09,
        AdElement::ShortenedLocalName(_) => 0x08,
        AdElement::ManufacturerSpecificData { .. } => 0xff,
        AdElement::Unknown { ty, .. } => ty,
    }
}

/// The bytes after the type byte.
pub open spec fn ad_payload(a: AdElement) -> Seq<u8> {
    match a {
        AdElement::Flags(f) => seq![f],
        AdElement::ServiceUuids16(u) => uuids_bytes(u),
        AdElement::ServiceUuids128(u) => uuids_bytes(u),
        AdElement::ServiceData16 { uuid, data } => le16(uuid) + data,
        AdElement::CompleteLocalName(n) => n,
        AdElement::ShortenedLocalName(n) => n,
        AdElement::ManufacturerSpecificData { company_identifier, payload } => le16(
            company_identifier,
        ) + payload,
        AdElement::Unknown { data, .. } => data,
    }
}

/// An element fits its length byte: type and payload take at most 255 bytes.
pub open spec fn ad_encodable(a: AdElement) -> bool {
    ad_payload(a).len() + 1 <= 255
}

/// The wire form of one element: length, type, payload.
pub open spec fn ad_bytes(a: AdElement) -> Seq<u8> {
    seq![(ad_payload(a).len() + 1) as u8, ad_type(a)] + ad_payload(a)
}

/// The wire form of a list of elements, one after the other.
pub open spec fn ads_bytes(s: Seq<AdElement>) -> Seq<u8>
    decreases s.len(),
{
    if s.len() == 0 {
        Seq::empty()
    } else {
        ads_bytes(s.drop_last()) + ad_bytes(s.last())
    }
}

pub open spec fn ad_views<'a>(s: Seq<AdStructure<'a>>) -> Seq<AdElement> {
    s.map_values(|a: AdStructure<'a>| a@)
}

/// What the decoder makes of one element's type and payload: flags and
/// names are recognized, every other type is kept as unknown. Flags
/// without a payload byte are invalid.
pub open spec fn classify(ty: u8, data: Seq<u8>) -> Result<AdElement, CodecError> {
    if ty == 0x01 {
        if data.len() >= 1 {
            Ok(AdElement::Flags(data[0]))
        } else {
            Err(CodecError::InvalidValue)
        }
    } else if ty == 0x08 {
        Ok(AdElement::ShortenedLocalName(data))
    } else if ty == 0x09 {
        Ok(AdElement::CompleteLocalName(data))
    } else {
        Ok(AdElement::Unknown { ty, data })
    }
}

/// The elements a buffer decodes to. A length byte of 0, or one that
/// reaches past the buffer, gives a last, invalid element.
pub open spec fn parse_ads(s: Seq<u8>) -> Seq<Result<AdElement, CodecError>>
    decreases s.len(),
{
    if s.len() == 0 {
        Seq::empty()
    } else if s.len() < 2 || s[0] == 0 || s[0] as int + 1 > s.len() {
        seq![Err(CodecError::InvalidValue)]
    } else {
        seq![classify(s[1], s.subrange(2, s[0] as int + 1))] + parse_ads(
            s.subrange(s[0] as int + 1, s.len() as int),
        )
    }
}

/// The model of a decoded item.
pub open spec fn ad_result_view<'a>(r: Result<AdStructure<'a>, CodecError>) -> Result<
    AdElement,
    CodecError,
> {
    match r {
        Ok(a) => Ok(a@),
        Err(e) => Err(e),
    }
}

proof fn lemma_uuids_bytes_prefix(s: Seq<Uuid>, i: int)
    requires
        0 <= i <= s.len(),
    ensures
        uuids_bytes(s.subrange(0, i)).len() <= uuids_bytes(s).len(),
    decreases s.len(),
{
    if i == s.len() {
        assert(s.subrange(0, i) =~= s);
    } else {
        assert(s.drop_last().subrange(0, i) =~= s.subrange(0, i));
        lemma_uuids_bytes_prefix(s.drop_last(), i);
    }
}

proof fn lemma_ads_bytes_prefix(s: Seq<AdElement>, i: int)
    requires
        0 <= i <= s.len(),
    ensures
        ads_bytes(s.subrange(0, i)).len() <= ads_bytes(s).len(),
    decreases s.len(),
{
    if i == s.len() {
        assert(s.subrange(0, i) =~= s);
    } else {
        assert(s.drop_last().subrange(0, i) =~= s.subrange(0, i));
        lemma_ads_bytes_prefix(s.drop_last(), i);
    }
}

/// Total length of the wire bytes of `uuids`, or `None` once it passes 254.
fn uuids_len(uuids: &[Uuid]) -> (r: Option<usize>)
    ensures
        r is Some <==> uuids_bytes(uuids@).len() <= 254,
        r is Some ==> r.unwrap() == uuids_bytes(uuids@).len(),
{
    let mut sum: usize = 0;
    let mut i: usize = 0;
    while i < uuids.len()
        invariant
            i <= uuids@.len(),
            sum == uuids_bytes(uuids@.subrange(0, i as int)).len(),
            sum <= 254,
        decreases uuids@.len() - i,
    {
        assert(uuids@.subrange(0, i + 1).drop_last() =~= uuids@.subrange(0, i as int));
        sum = sum + uuids[i].as_raw().len();
        i += 1;
        if sum > 254 {
            proof {
                lemma_uuids_bytes_prefix(uuids@, i as int);
            }
            return None;
        }
    }
    assert(uuids@.subrange(0, i as int) =~= uuids@);
    Some(sum)
}

/// Appends the wire bytes of `uuids`, for which there is room.
fn write_uuids(w: &mut WriteCursor, uuids: &[Uuid])
    requires
        old(w).wf(),
        old(w).written().len() + uuids_bytes(uuids@).len() <= old(w).capacity(),
    ensures
        final(w).wf(),
        final(w).capacity() == old(w).capacity(),
        final(w).written() == old(w).written() + uuids_bytes(uuids@),
{
    let mut i: usize = 0;
    while i < uuids.len()
        invariant
            i <= uuids@.len(),
            w.wf(),
            w.capacity() == old(w).capacity(),
            old(w).written().len() + uuids_bytes(uuids@).len() <= old(w).capacity(),
            w.written() == old(w).written() + uuids_bytes(uuids@.subrange(0, i as int)),
        decreases uuids@.len() - i,
    {
        assert(uuids@.subrange(0, i + 1).drop_last() =~= uuids@.subrange(0, i as int));
        proof {
            lemma_uuids_bytes_prefix(uuids@, i + 1);
        }
        let _ = w.append(uuids[i].as_raw());
        i += 1;
        assert(w.written() =~= old(w).written() + uuids_bytes(uuids@.subrange(0, i as int)));
    }
    assert(uuids@.subrange(0, i as int) =~= uuids@);
}

impl<'d> AdStructure<'d> {
    /// Encodes `data` into the front of `dest` and returns the number of
    /// bytes written. On failure `dest` is left as it was.
    pub fn encode_slice(data: &[AdStructure<'_>], dest: &mut [u8]) -> (r: Result<
        usize,
        CodecError,
    >)
        ensures
            r is Ok <==> (forall|i: int|
                0 <= i < data@.len() ==> ad_encodable(#[trigger] data@[i]@)) && ads_bytes(
                ad_views(data@),
            ).len() <= old(dest)@.len(),
            r is Ok ==> r.unwrap() == ads_bytes(ad_views(data@)).len() && final(dest)@ == ads_bytes(
                ad_views(data@),
            ) + old(dest)@.subrange(r.unwrap() as int, old(dest)@.len() as int),
            r is Err ==> r == Err::<usize, CodecError>(CodecError::InsufficientSpace) && final(dest)@ == old(dest)@,
    {
        let mut w = WriteCursor::new(dest.len());
        let mut i: usize = 0;
        while i < data.len()
            invariant
                i <= data@.len(),
                w.wf(),
                w.capacity() == dest@.len(),
                dest@ == old(dest)@,
                w.written() == ads_bytes(ad_views(data@.subrange(0, i as int))),
                forall|j: int| 0 <= j < i ==> ad_encodable(#[trigger] data@[j]@),
            decreases data@.len() - i,
        {
            let ghost before = w.written();
            assert(ad_views(data@.subrange(0, i + 1)).drop_last() =~= ad_views(
                data@.subrange(0, i as int),
            ));
            assert(ad_views(data@.subrange(0, i + 1)).last() == data@[i as int]@);
            match data[i].encode(&mut w) {
                Ok(()) => {},
                Err(e) => {
                    proof {
                        if ad_encodable(data@[i as int]@) {
                            lemma_ads_bytes_prefix(ad_views(data@), i + 1);
                            assert(ad_views(data@).subrange(0, i + 1) =~= ad_views(
                                data@.subrange(0, i + 1),
                            ));
                        }
                    }
                    return Err(e);
                },
            }
            i += 1;
        }
        assert(data@.subrange(0, i as int) =~= data@);
        let bytes = w.into_bytes();
        let n = bytes.len();
        let mut k: usize = 0;
        while k < n
            invariant
                n == bytes@.len(),
                n <= dest@.len(),
                dest@.len() == old(dest)@.len(),
                k <= n,
                forall|j: int|
                    0 <= j < dest@.len() ==> #[trigger] dest@[j] == if j < k {
                        bytes@[j]
                    } else {
                        old(dest)@[j]
                    },
            decreases n - k,
        {
            dest[k] = bytes[k];
            k += 1;
        }
        assert(dest@ =~= bytes@ + old(dest)@.subrange(n as int, old(dest)@.len() as int));
        Ok(n)
    }

    /// Appends this element's wire form to `w`. Fails, leaving `w` as it
    /// was, when the element does not fit its length byte or the room left.
    pub fn encode(&self, w: &mut WriteCursor) -> (r: Result<(), CodecError>)
        requires
            old(w).wf(),
        ensures
            final(w).wf(),
            final(w).capacity() == old(w).capacity(),
            r is Ok <==> ad_encodable(self@) && old(w).written().len() + ad_bytes(self@).len()
                <= old(w).capacity(),
            r is Ok ==> final(w).written() == old(w).written() + ad_bytes(self@),
            r is Err ==> r == Err::<(), CodecError>(CodecError::InsufficientSpace) && final(w).written() == old(w).written(),
    {
        let plen: usize = match self {
            AdStructure::Flags(_) => 1,
            AdStructure::ServiceUuids16(uuids) => match uuids_len(uuids) {
                Some(n) => n,
                None => {
                    return Err(CodecError::InsufficientSpace);
                },
            },
            AdStructure::ServiceUuids128(uuids) => match uuids_len(uuids) {
                Some(n) => n,
                None => {
                    return Err(CodecError::InsufficientSpace);
                },
            },
            AdStructure::ShortenedLocalName(name) => name.len(),
            AdStructure::CompleteLocalName(name) => name.len(),
            AdStructure::ServiceData16 { data, .. } => {
                if data.len() > 252 {
                    return Err(CodecError::InsufficientSpace);
                }
                data.len() + 2
            },
            AdStructure::ManufacturerSpecificData { payload, .. } => {
                if payload.len() > 252 {
                    return Err(CodecError::InsufficientSpace);
                }
                payload.len() + 2
            },
            AdStructure::Unknown { data, .. } => data.len(),
        };
        assert(plen == ad_payload(self@).len());
        if plen > 254 || plen + 2 > w.available() {
            return Err(CodecError::InsufficientSpace);
        }
        let ty: u8 = match self {
            AdStructure::Flags(_) => 0x01,
            AdStructure::ServiceUuids16(_) => 0x02,
            AdStructure::ServiceUuids128(_) => 0x07,
            AdStructure::ShortenedLocalName(_) => 0x08,
            AdStructure::CompleteLocalName(_) => 0x09,
            AdStructure::ServiceData16 { .. } => 0x16,
            AdStructure::ManufacturerSpecificData { .. } => 0xff,
            AdStructure::Unknown { ty, .. } => *ty,
        };
        let ghost start = w.written();
        let _ = w.write_u8((plen + 1) as u8);
        let _ = w.write_u8(ty);
        match self {
            AdStructure::Flags(flags) => {
                let _ = w.write_u8(*flags);
            },
            AdStructure::ServiceUuids16(uuids) => {
                write_uuids(w, uuids);
            },
            AdStructure::ServiceUuids128(uuids) => {
                write_uuids(w, uuids);
            },
            AdStructure::ShortenedLocalName(name) => {
                let _ = w.append(name);
            },
            AdStructure::CompleteLocalName(name) => {
                let _ = w.append(name);
            },
            AdStructure::ServiceData16 { uuid, data } => {
                let _ = w.write_u16(*uuid);
                let _ = w.append(data);
            },
            AdStructure::ManufacturerSpecificData { company_identifier, payload } => {
                let _ = w.write_u16(*company_identifier);
                let _ = w.append(payload);
            },
            AdStructure::Unknown { data, .. } => {
                let _ = w.append(data);
            },
        }
        assert(w.written() =~= start + ad_bytes(self@));
        Ok(())
    }

    /// The elements of `data`, decoded one at a time.
    pub fn decode(data: &'d [u8]) -> (r: AdStructureIter<'d>)
        ensures
            r.wf(),
            r.rest() == parse_ads(data@),
    {
        let r = AdStructureIter { data, pos: 0 };
        assert(data@.subrange(0, data@.len() as int) =~= data@);
        r
    }
}

/// Decodes AD elements lazily. After an element with broken framing it yields
/// nothing more.
pub struct AdStructureIter<'d> {
    data: &'d [u8],
    pos: usize,
}

impl<'d> AdStructureIter<'d> {
    pub closed spec fn wf(&self) -> bool {
        self.pos <= self.data@.len()
    }

    /// The items still to come.
    pub closed spec fn rest(&self) -> Seq<Result<AdElement, CodecError>> {
        if self.pos <= self.data@.len() {
            parse_ads(self.data@.subrange(self.pos as int, self.data@.len() as int))
        } else {
            Seq::empty()
        }
    }

    fn read(&mut self) -> (r: Result<AdStructure<'d>, CodecError>)
        requires
            old(self).pos < old(self).data@.len(),
        ensures
            final(self).data == old(self).data,
            final(self).pos <= final(self).data@.len(),
            old(self).rest().len() > 0,
            ad_result_view(r) == old(self).rest()[0],
            final(self).rest() == old(self).rest().drop_first(),
    {
        let s = vstd::slice::slice_subrange(self.data, self.pos, self.data.len());
        let ghost rest = s@;
        assert(rest =~= self.data@.subrange(self.pos as int, self.data@.len() as int));
        if s.len() < 2 || s[0] == 0 || s[0] as usize + 1 > s.len() {
            self.pos = self.data.len();
            assert(self.data@.subrange(self.pos as int, self.data@.len() as int) =~= Seq::<
                u8,
            >::empty());
            return Err(CodecError::InvalidValue);
        }
        let len = s[0] as usize;
        let code = s[1];
        let data = vstd::slice::slice_subrange(s, 2, len + 1);
        self.pos = self.pos + len + 1;
        assert(self.data@.subrange(self.pos as int, self.data@.len() as int) =~= rest.subrange(
            len + 1,
            rest.len() as int,
        ));
        if code == 0x01 {
            if data.len() >= 1 {
                Ok(AdStructure::Flags(data[0]))
            } else {
                Err(CodecError::InvalidValue)
            }
        } else if code == 0x08 {
            Ok(AdStructure::ShortenedLocalName(data))
        } else if code == 0x09 {
            Ok(AdStructure::CompleteLocalName(data))
        } else {
            Ok(AdStructure::Unknown { ty: code, data })
        }
    }

    /// The next element, or `None` at the end of the buffer.
    pub fn next(&mut self) -> (r: Option<Result<AdStructure<'d>, CodecError>>)
        requires
            old(self).wf(),
        ensures
            final(self).wf(),
            old(self).rest().len() == 0 ==> r is None && final(self).rest() == old(self).rest(),
            old(self).rest().len() > 0 ==> r is Some && ad_result_view(r.unwrap()) == old(
                self,
            ).rest()[0] && final(self).rest() == old(self).rest().drop_first(),
    {
        if self.pos >= self.data.len() {
            return None;
        }
        Some(self.read())
    }
}

/// Encoding a list of elements and decoding the bytes gives each element
/// back as the decoder classifies its type and payload.
pub proof fn lemma_ad_round_trip(xs: Seq<AdElement>)
    requires
        forall|i: int| 0 <= i < xs.len() ==> ad_encodable(#[trigger] xs[i]),
    ensures
        parse_ads(ads_bytes(xs)) == xs.map_values(
            |x: AdElement| classify(ad_type(x), ad_payload(x)),
        ),
    decreases xs.len(),
{
    if xs.len() == 0 {
        assert(xs.map_values(|x: AdElement| classify(ad_type(x), ad_payload(x))) =~= Seq::<
            Result<AdElement, CodecError>,
        >::empty());
    } else {
        lemma_ad_round_trip_from(xs, 0);
        assert(xs.subrange(0, xs.len() as int) =~= xs);
    }
}

/// The bytes of the elements from index `k` on.
pub open spec fn ads_bytes_from(xs: Seq<AdElement>, k: int) -> Seq<u8>
    decreases xs.len() - k,
{
    if k >= xs.len() || k < 0 {
        Seq::empty()
    } else {
        ad_bytes(xs[k]) + ads_bytes_from(xs, k + 1)
    }
}

proof fn lemma_ads_bytes_split(xs: Seq<AdElement>)
    ensures
        ads_bytes(xs) == ads_bytes_from(xs, 0),
    decreases xs.len(),
{
    if xs.len() > 0 {
        lemma_ads_bytes_split(xs.drop_last());
        lemma_from_push(xs.drop_last(), xs.last(), 0);
        assert(xs.drop_last().push(xs.last()) =~= xs);
    }
}

proof fn lemma_from_push(xs: Seq<AdElement>, x: AdElement, k: int)
    requires
        0 <= k <= xs.len(),
    ensures
        ads_bytes_from(xs.push(x), k) == ads_bytes_from(xs, k) + ad_bytes(x),
    decreases xs.len() - k,
{
    if k == xs.len() {
        assert(ads_bytes_from(xs.push(x), k + 1) =~= Seq::<u8>::empty());
        assert(ads_bytes_from(xs.push(x), k) =~= ads_bytes_from(xs, k) + ad_bytes(x));
    } else {
        lemma_from_push(xs, x, k + 1);
        assert(xs.push(x)[k] == xs[k]);
        assert(ads_bytes_from(xs.push(x), k) =~= ads_bytes_from(xs, k) + ad_bytes(x));
    }
}

proof fn lemma_ad_round_trip_from(xs: Seq<AdElement>, k: int)
    requires
        0 <= k <= xs.len(),
        forall|i: int| 0 <= i < xs.len() ==> ad_encodable(#[trigger] xs[i]),
    ensures
        parse_ads(ads_bytes(xs.subrange(0, xs.len() as int))) == parse_ads(ads_bytes_from(xs, 0)),
        parse_ads(ads_bytes_from(xs, k)) == xs.subrange(k, xs.len() as int).map_values(
            |x: AdElement| classify(ad_type(x), ad_payload(x)),
        ),
    decreases xs.len() - k,
{
    lemma_ads_bytes_split(xs);
    assert(xs.subrange(0, xs.len() as int) =~= xs);
    let f = |x: AdElement| classify(ad_type(x), ad_payload(x));
    if k == xs.len() {
        assert(ads_bytes_from(xs, k) =~= Seq::<u8>::empty());
        assert(xs.subrange(k, xs.len() as int).map_values(f) =~= Seq::<
            Result<AdElement, CodecError>,
        >::empty());
    } else {
        lemma_ad_round_trip_from(xs, k + 1);
        let x = xs[k];
        assert(ad_encodable(x));
        let s = ads_bytes_from(xs, k);
        let b = ad_bytes(x);
        let tail = ads_bytes_from(xs, k + 1);
        assert(s == b + tail);
        let n: int = ad_payload(x).len() as int + 1;
        assert(s[0] as int == n);
        assert(s[1] == ad_type(x));
        assert(s.subrange(2, n + 1) =~= ad_payload(x));
        assert(s.subrange(n + 1, s.len() as int) =~= tail);
        assert(xs.subrange(k, xs.len() as int).map_values(f) =~= seq![f(x)] + xs.subrange(
            k + 1,
            xs.len() as int,
        ).map_values(f));
    }
}

/// The decoder gives back flags, names and elements of unrecognized type
/// unchanged; the other recognized encodings come back as unknown elements
/// holding their type and payload.
pub proof fn lemma_classify_known(x: AdElement)
    ensures
        x is Flags || x is ShortenedLocalName || x is CompleteLocalName ==> classify(
            ad_type(x),
            ad_payload(x),
        ) == Ok::<AdElement, CodecError>(x),
        x is Unknown && x->ty != 0x01 && x->ty != 0x08 && x->ty != 0x09 ==> classify(
            ad_type(x),
            ad_payload(x),
        ) == Ok::<AdElement, CodecError>(x),
        x is ServiceUuids16 || x is ServiceUuids128 || x is ServiceData16
            || x is ManufacturerSpecificData ==> classify(ad_type(x), ad_payload(x)) == Ok::<
            AdElement,
            CodecError,
        >(AdElement::Unknown { ty: ad_type(x), data: ad_payload(x) }),
{
}

} // verus!
