use trouble_host::att::AttErrorCode;
use trouble_host::attribute::{Attribute, AttributeData, CharacteristicProp, CharacteristicProps};
use trouble_host::table::{AttributeTable, CharacteristicHandle, Service};
use trouble_host::uuid::Uuid;
use trouble_host::Error;

fn battery_table() -> (AttributeTable<'static, 10>, CharacteristicHandle) {
    let table: AttributeTable<'static, 10> = AttributeTable::new();
    let mut builder = table.add_service(Service::new(Uuid::new_short(0x180F)));
    let handle = builder.add_characteristic(
        Uuid::new_short(0x2A19),
        &[CharacteristicProp::Read, CharacteristicProp::Notify],
        vec![0u8; 1],
    );
    (builder.finish(), handle)
}

fn handles(table: &AttributeTable<'_, 10>) -> Vec<(u16, u16)> {
    let mut it = table.iterate();
    let mut out = Vec::new();
    while let Some(a) = it.next() {
        out.push((a.handle, a.last_handle_in_group));
    }
    out
}

#[test]
fn service_layout() {
    let (table, handle) = battery_table();
    assert_eq!(handle.handle, 3);
    assert_eq!(handle.cccd_handle, Some(4));
    assert_eq!(handles(&table), vec![(1, 4), (2, 4), (3, 4), (4, 4)]);
    let mut it = table.iterate();
    let service = it.next().unwrap();
    assert_eq!(service.uuid, Uuid::new_short(0x2800));
    assert!(matches!(service.data, AttributeData::Service { uuid } if uuid == Uuid::new_short(0x180F)));
    let decl = it.next().unwrap();
    assert_eq!(decl.uuid, Uuid::new_short(0x2803));
    let mut buf = [0u8; 8];
    assert_eq!(decl.data.read(0, &mut buf), Ok(5));
    assert_eq!(&buf[..5], &[0x12, 0x03, 0x00, 0x19, 0x2A]);
    let value = it.next().unwrap();
    assert_eq!(value.uuid, Uuid::new_short(0x2A19));
    let cccd = it.next().unwrap();
    assert_eq!(cccd.uuid, Uuid::new_short(0x2902));
    assert!(it.next().is_none());
    let builder = table.add_service(Service::new(Uuid::new_short(0x1800)));
    let table = builder.finish();
    assert_eq!(handles(&table)[4], (0x10, 0x10));
}

#[test]
fn second_service_starts_on_boundary() {
    let (table, _) = battery_table();
    let mut builder = table.add_service(Service::new(Uuid::new_short(0x1801)));
    let h = builder.add_characteristic_ro(Uuid::new_short(0x2A00), b"dev");
    assert_eq!(h.handle, 0x12);
    assert_eq!(h.cccd_handle, None);
    let table = builder.finish();
    let hs = handles(&table);
    assert_eq!(&hs[4..], &[(0x10, 0x12), (0x11, 0x12), (0x12, 0x12)]);
    for w in hs.windows(2) {
        assert!(w[0].0 < w[1].0);
    }
}

#[test]
fn cccd_read_after_enabling_notifications() {
    let mut cccd = AttributeData::Cccd { notifications: false, indications: false };
    assert_eq!(cccd.write(0, &[0x01, 0x00]), Ok(()));
    let mut out = [0xFFu8; 2];
    assert_eq!(cccd.read(0, &mut out), Ok(2));
    assert_eq!(out, [0x01, 0x00]);
}

#[test]
fn cccd_write_values() {
    for (b, n, i) in [(0u8, false, false), (1, true, false), (2, false, true), (3, true, true)] {
        let mut cccd = AttributeData::Cccd { notifications: !n, indications: !i };
        cccd.write(0, &[b, 0x00]).unwrap();
        assert!(matches!(cccd, AttributeData::Cccd { notifications, indications } if notifications == n && indications == i));
        let mut out = [0xAAu8; 3];
        assert_eq!(cccd.read(0, &mut out), Ok(2));
        assert_eq!(out, [b, 0x00, 0xAA]);
    }
}

#[test]
fn cccd_errors() {
    let mut cccd = AttributeData::Cccd { notifications: false, indications: false };
    assert_eq!(cccd.write(0, &[]), Err(AttErrorCode::UnlikelyError));
    assert_eq!(cccd.write(1, &[1]), Err(AttErrorCode::InvalidOffset));
    let mut small = [0u8; 1];
    assert_eq!(cccd.read(0, &mut small), Err(AttErrorCode::UnlikelyError));
    let mut out = [0u8; 2];
    assert_eq!(cccd.read(1, &mut out), Err(AttErrorCode::InvalidOffset));
}

#[test]
fn read_past_end_returns_nothing() {
    let data = AttributeData::ReadOnlyData { props: CharacteristicProps(0x02), value: &[1, 2, 3] };
    let mut out = [0u8; 4];
    assert_eq!(data.read(4, &mut out), Ok(0));
    assert_eq!(data.read(3, &mut out), Ok(0));
    assert_eq!(data.read(1, &mut out), Ok(2));
    assert_eq!(&out[..2], &[2, 3]);
    let mut short = [0u8; 2];
    assert_eq!(data.read(0, &mut short), Ok(2));
    assert_eq!(short, [1, 2]);
}

#[test]
fn read_service_and_declaration_offsets() {
    let service = AttributeData::Service { uuid: Uuid::new_short(0x180F) };
    let mut out = [0u8; 4];
    assert_eq!(service.read(1, &mut out), Ok(1));
    assert_eq!(out[0], 0x18);
    let decl = AttributeData::Declaration { props: CharacteristicProps(0x0A), handle: 0x0203, uuid: Uuid::new_short(0x2A00) };
    let mut out = [0u8; 8];
    assert_eq!(decl.read(2, &mut out), Ok(3));
    assert_eq!(&out[..3], &[0x02, 0x00, 0x2A]);
    assert_eq!(decl.read(4, &mut out), Ok(1));
    assert_eq!(out[0], 0x2A);
    assert_eq!(decl.read(6, &mut out), Ok(0));
}

#[test]
fn read_not_permitted() {
    let data = AttributeData::Data { props: CharacteristicProps(0x08), value: vec![1] };
    let mut out = [0u8; 2];
    assert_eq!(data.read(0, &mut out), Err(AttErrorCode::ReadNotPermitted));
    assert!(!data.readable());
    assert!(data.writable());
}

#[test]
fn write_permissions() {
    let mut ro = AttributeData::ReadOnlyData { props: CharacteristicProps(0x02), value: &[1] };
    assert_eq!(ro.write(0, &[2]), Err(AttErrorCode::WriteNotPermitted));
    let mut service = AttributeData::Service { uuid: Uuid::new_short(0x180F) };
    assert_eq!(service.write(0, &[2]), Err(AttErrorCode::WriteNotPermitted));
    let mut locked = AttributeData::Data { props: CharacteristicProps(0x02), value: vec![0; 4] };
    assert_eq!(locked.write(0, &[2]), Err(AttErrorCode::WriteNotPermitted));
}

#[test]
fn data_write_bounds() {
    let mut data = AttributeData::Data { props: CharacteristicProps(0x0A), value: vec![0; 4] };
    assert_eq!(data.write(1, &[7, 8]), Ok(()));
    let mut out = [0u8; 4];
    assert_eq!(data.read(0, &mut out), Ok(4));
    assert_eq!(out, [0, 7, 8, 0]);
    assert_eq!(data.write(2, &[1, 1]), Err(AttErrorCode::InvalidOffset));
    assert_eq!(data.write(0, &[1, 1, 1, 1]), Err(AttErrorCode::InvalidOffset));
    assert_eq!(data.write(9, &[]), Err(AttErrorCode::InvalidOffset));
}

#[test]
fn set_and_get_values() {
    let (mut table, handle) = battery_table();
    assert_eq!(table.set(handle, &[42]), Ok(()));
    assert_eq!(table.get(handle, |v: &[u8]| v.to_vec()), Ok(vec![42]));
    let missing = CharacteristicHandle { handle: 2, cccd_handle: None };
    assert_eq!(table.set(missing, &[1]), Err(Error::NotFound));
    assert_eq!(table.get(missing, |v: &[u8]| v.len()), Err(Error::NotFound));
    assert_eq!(table.len(), 4);
}

#[test]
fn props_union_and_any() {
    let props = CharacteristicProps::from_props(&[CharacteristicProp::Read, CharacteristicProp::Notify]);
    assert_eq!(props, CharacteristicProps(0x12));
    assert!(props.any(&[CharacteristicProp::Notify, CharacteristicProp::Indicate]));
    assert!(!props.any(&[CharacteristicProp::Write, CharacteristicProp::Indicate]));
    let from: CharacteristicProps = (&[CharacteristicProp::Write][..]).into();
    assert_eq!(CharacteristicProps::from([CharacteristicProp::Indicate, CharacteristicProp::Read]).0, 0x22);
    assert_eq!(from.0, 0x08);
    assert_eq!(CharacteristicProp::AuthenticatedWrite.bit(), 0x40);
}

#[test]
fn new_attribute_defaults() {
    let a = Attribute::new(Uuid::new_short(0x2A00), AttributeData::Cccd { notifications: false, indications: false });
    assert_eq!(a.handle, 0);
    assert_eq!(a.last_handle_in_group, 0xFFFF);
}

#[test]
fn table_write_by_handle() {
    let (mut table, handle) = battery_table();
    assert_eq!(table.write(4, 0, &[0x01, 0x00]), Ok(()));
    let mut it = table.iterate();
    let mut cccd = None;
    while let Some(a) = it.next() {
        if a.handle == 4 {
            cccd = Some(a);
        }
    }
    let mut out = [0u8; 2];
    assert_eq!(cccd.unwrap().data.read(0, &mut out), Ok(2));
    assert_eq!(out, [0x01, 0x00]);
    assert_eq!(table.write(1, 0, &[0x00]), Err(AttErrorCode::WriteNotPermitted));
    assert_eq!(table.write(0x30, 0, &[0x00]), Err(AttErrorCode::InvalidHandle));
    assert_eq!(table.write(handle.handle, 0, &[5]), Err(AttErrorCode::WriteNotPermitted));
}

#[test]
fn default_table_is_empty() {
    let table: AttributeTable<'static, 4> = AttributeTable::default();
    assert_eq!(table.len(), 0);
    let builder = table.add_service(Service::new(Uuid::new_short(0x1800)));
    let table = builder.finish();
    let mut it = table.iterate();
    let a = it.next().unwrap();
    assert_eq!((a.handle, a.last_handle_in_group), (1, 1));
    assert!(it.next().is_none());
}
