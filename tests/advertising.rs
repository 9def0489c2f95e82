use trouble_host::advertise::AdStructure;
use trouble_host::codec::CodecError;
use trouble_host::cursor::{ReadCursor, WriteCursor};
use trouble_host::normalize::{AdvEventProps, AdvSet, Advertisement, ExtendedAdvertisement, RawAdvertisement, TxPower};
use trouble_host::uuid::Uuid;
use trouble_host::Address;

fn collect(data: &[u8]) -> Vec<Result<AdStructure<'_>, CodecError>> {
    let mut it = AdStructure::decode(data);
    let mut out = Vec::new();
    while let Some(item) = it.next() {
        out.push(item);
    }
    out
}

#[test]
fn encode_flags() {
    let mut buf = [0u8; 31];
    let n = AdStructure::encode_slice(&[AdStructure::Flags(0x06)], &mut buf).unwrap();
    assert_eq!(&buf[..n], &[0x02, 0x01, 0x06]);
}

#[test]
fn encode_complete_local_name() {
    let mut buf = [0u8; 31];
    let n = AdStructure::encode_slice(&[AdStructure::CompleteLocalName(b"Hi")], &mut buf).unwrap();
    assert_eq!(&buf[..n], &[0x03, 0x09, 0x48, 0x69]);
}

#[test]
fn encode_other_elements() {
    let mut buf = [0u8; 64];
    let uuids = [Uuid::new_short(0x180F), Uuid::new_short(0x1800)];
    let n = AdStructure::encode_slice(
        &[
            AdStructure::ServiceUuids16(&uuids),
            AdStructure::ServiceData16 { uuid: 0x180F, data: &[0x64] },
            AdStructure::ManufacturerSpecificData { company_identifier: 0x0059, payload: &[1, 2] },
            AdStructure::ShortenedLocalName(b"a"),
            AdStructure::Unknown { ty: 0x0A, data: &[0xF4] },
        ],
        &mut buf,
    )
    .unwrap();
    assert_eq!(
        &buf[..n],
        &[
            0x05, 0x02, 0x0F, 0x18, 0x00, 0x18, 0x04, 0x16, 0x0F, 0x18, 0x64, 0x05, 0xFF, 0x59, 0x00, 1, 2,
            0x02, 0x08, b'a', 0x02, 0x0A, 0xF4
        ]
    );
}

#[test]
fn encode_long_uuid_list() {
    let mut buf = [0u8; 31];
    let uuids = [Uuid::new_long([0xAB; 16])];
    let n = AdStructure::encode_slice(&[AdStructure::ServiceUuids128(&uuids)], &mut buf).unwrap();
    assert_eq!(n, 18);
    assert_eq!(&buf[..2], &[17, 0x07]);
    assert_eq!(&buf[2..18], &[0xAB; 16]);
}

#[test]
fn encode_fails_when_destination_is_full() {
    let mut buf = [0xEEu8; 3];
    let r = AdStructure::encode_slice(&[AdStructure::CompleteLocalName(b"Hi")], &mut buf);
    assert_eq!(r, Err(CodecError::InsufficientSpace));
    assert_eq!(buf, [0xEE; 3]);
    let mut exact = [0u8; 4];
    assert_eq!(AdStructure::encode_slice(&[AdStructure::CompleteLocalName(b"Hi")], &mut exact), Ok(4));
}

#[test]
fn encode_fails_on_oversized_element() {
    let name = [b'x'; 255];
    let mut buf = [0u8; 600];
    let r = AdStructure::encode_slice(&[AdStructure::CompleteLocalName(&name)], &mut buf);
    assert_eq!(r, Err(CodecError::InsufficientSpace));
    let fits = [b'x'; 254];
    let n = AdStructure::encode_slice(&[AdStructure::CompleteLocalName(&fits)], &mut buf).unwrap();
    assert_eq!(n, 256);
    assert_eq!(buf[0], 255);
}

#[test]
fn encode_into_cursor() {
    let mut w = WriteCursor::new(8);
    AdStructure::Flags(0x04).encode(&mut w).unwrap();
    assert_eq!(w.len(), 3);
    assert_eq!(w.available(), 5);
    assert_eq!(AdStructure::CompleteLocalName(b"long!").encode(&mut w), Err(CodecError::InsufficientSpace));
    assert_eq!(w.len(), 3);
    assert_eq!(w.into_bytes(), vec![0x02, 0x01, 0x04]);
}

#[test]
fn decode_round_trip() {
    let items = [
        AdStructure::Flags(0x06),
        AdStructure::CompleteLocalName(b"Hi"),
        AdStructure::ShortenedLocalName(b"H"),
        AdStructure::Unknown { ty: 0x0A, data: &[0x04] },
    ];
    let mut buf = [0u8; 31];
    let n = AdStructure::encode_slice(&items, &mut buf).unwrap();
    let decoded = collect(&buf[..n]);
    let expected: Vec<Result<AdStructure<'_>, CodecError>> = items.iter().map(|i| Ok(*i)).collect();
    assert_eq!(decoded, expected);
}

#[test]
fn decode_unrecognized_types_become_unknown() {
    let uuids = [Uuid::new_short(0x180F)];
    let items = [
        AdStructure::ServiceUuids16(&uuids),
        AdStructure::ManufacturerSpecificData { company_identifier: 0x0059, payload: &[7] },
    ];
    let mut buf = [0u8; 31];
    let n = AdStructure::encode_slice(&items, &mut buf).unwrap();
    let decoded = collect(&buf[..n]);
    assert_eq!(
        decoded,
        vec![
            Ok(AdStructure::Unknown { ty: 0x02, data: &[0x0F, 0x18] }),
            Ok(AdStructure::Unknown { ty: 0xFF, data: &[0x59, 0x00, 7] }),
        ]
    );
}

#[test]
fn decode_overlong_length_is_invalid() {
    let data = [0x05, 0x09, b'a'];
    assert_eq!(collect(&data), vec![Err(CodecError::InvalidValue)]);
    let zero = [0x00, 0x00, 0x02, 0x01, 0x06];
    assert_eq!(collect(&zero), vec![Err(CodecError::InvalidValue)]);
    let lone = [0x02, 0x01, 0x06, 0x01];
    assert_eq!(collect(&lone), vec![Ok(AdStructure::Flags(6)), Err(CodecError::InvalidValue)]);
    let empty_flags = [0x01, 0x01, 0x02, 0x09, b'Z'];
    assert_eq!(
        collect(&empty_flags),
        vec![Err(CodecError::InvalidValue), Ok(AdStructure::CompleteLocalName(b"Z"))]
    );
    assert_eq!(collect(&[]), vec![]);
}

fn props(c: bool, s: bool, d: bool, h: bool, a: bool, l: bool) -> AdvEventProps {
    AdvEventProps {
        connectable_adv: c,
        scannable_adv: s,
        directed_adv: d,
        high_duty_cycle_directed_connectable_adv: h,
        legacy_adv: l,
        anonymous_adv: a,
        include_tx_power: false,
    }
}

fn set(handle: u8) -> AdvSet {
    AdvSet { adv_handle: handle, duration: 0, max_ext_adv_events: 0 }
}

#[test]
fn normalize_legacy_advertisements() {
    let adv = [1u8, 2];
    let scan = [3u8];
    let peer = Address::random([1, 2, 3, 4, 5, 6]);
    let r = RawAdvertisement::from_advertisement(Advertisement::ConnectableScannableUndirected {
        adv_data: &adv,
        scan_data: &scan,
    });
    assert_eq!(r.props, props(true, true, false, false, false, true));
    assert_eq!(r.adv_data, &adv);
    assert_eq!(r.scan_data, &scan);
    assert_eq!(r.peer, None);
    assert_eq!(r.set, set(0));
    let r = RawAdvertisement::from_advertisement(Advertisement::ConnectableNonscannableDirected { peer });
    assert_eq!(r.props, props(true, false, true, false, false, true));
    assert_eq!(r.peer, Some(peer));
    assert!(r.adv_data.is_empty() && r.scan_data.is_empty());
    let r = RawAdvertisement::from_advertisement(Advertisement::ConnectableNonscannableDirectedHighDuty { peer });
    assert_eq!(r.props, props(true, false, false, true, false, true));
    let r = RawAdvertisement::from_advertisement(Advertisement::NonconnectableScannableUndirected {
        adv_data: &adv,
        scan_data: &scan,
    });
    assert_eq!(r.props, props(false, true, false, false, false, true));
    let r = RawAdvertisement::from_advertisement(Advertisement::NonconnectableNonscannableUndirected { adv_data: &adv });
    assert_eq!(r.props, props(false, false, false, false, false, true));
    assert_eq!(r.scan_data, &[] as &[u8]);
}

#[test]
fn normalize_extended_advertisements() {
    let data = [9u8];
    let peer = Address::random([6, 5, 4, 3, 2, 1]);
    let r = RawAdvertisement::from_advertisement(Advertisement::Extended(
        ExtendedAdvertisement::NonconnectableNonscannableDirected { set_id: 3, anonymous: true, peer, adv_data: &data },
    ));
    assert_eq!(r.props, props(false, false, true, false, true, false));
    assert_eq!(r.set, set(3));
    assert_eq!(r.peer, Some(peer));
    let r = RawAdvertisement::from_extended(ExtendedAdvertisement::ConnectableNonscannableUndirected {
        set_id: 2,
        adv_data: &data,
    });
    assert_eq!(r.props, props(true, false, false, false, false, false));
    assert_eq!(r.set.adv_handle, 2);
    let r = RawAdvertisement::from_extended(ExtendedAdvertisement::NonconnectableScannableDirected {
        set_id: 1,
        peer,
        scan_data: &data,
    });
    assert_eq!(r.props, props(false, true, true, false, false, false));
    assert_eq!(r.scan_data, &data);
    let r = RawAdvertisement::from_extended(ExtendedAdvertisement::NonconnectableNonscannableUndirected {
        set_id: 4,
        anonymous: false,
        adv_data: &data,
    });
    assert_eq!(r.props, props(false, false, false, false, false, false));
    assert_eq!(r.peer, None);
}

#[test]
fn default_raw_advertisement() {
    let r = RawAdvertisement::default();
    assert_eq!(r.props, props(true, true, false, false, false, true));
    assert!(r.adv_data.is_empty());
    assert_eq!(r.set, set(0));
}

#[test]
fn tx_power_levels() {
    assert_eq!(TxPower::Minus40dBm.dbm(), -40);
    assert_eq!(TxPower::ZerodBm.dbm(), 0);
    assert_eq!(TxPower::Plus8dBm.dbm(), 8);
}

#[test]
fn random_address() {
    let a = Address::random([1, 2, 3, 4, 5, 6]);
    assert_eq!(a.kind, 1);
    assert_eq!(a.addr, [1, 2, 3, 4, 5, 6]);
}

#[test]
fn read_cursor_reads_front_to_back() {
    let mut r = ReadCursor::new(&[0x03, 0x09, b'H', b'i']);
    assert_eq!(r.available(), 4);
    assert_eq!(r.read_u8(), Ok(3));
    assert_eq!(r.slice(2), Ok(vec![0x09, b'H']));
    assert_eq!(r.slice(2), Err(CodecError::InsufficientSpace));
    assert_eq!(r.available(), 1);
    assert_eq!(r.read_u8(), Ok(b'i'));
    assert_eq!(r.read_u8(), Err(CodecError::InsufficientSpace));
}

#[test]
fn write_cursor_u16_is_little_endian() {
    let mut w = WriteCursor::new(3);
    assert_eq!(w.write_u16(0x1234), Ok(()));
    assert_eq!(w.write_u16(0x5678), Err(CodecError::InsufficientSpace));
    assert_eq!(w.write_u8(0xAB), Ok(()));
    assert_eq!(w.append(&[1]), Err(CodecError::InsufficientSpace));
    assert_eq!(w.into_bytes(), vec![0x34, 0x12, 0xAB]);
}
