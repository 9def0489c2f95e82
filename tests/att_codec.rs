use trouble_host::att::{Att, AttDecodeError, AttErrorCode};
use trouble_host::uuid::Uuid;

#[test]
fn decode_read_request() {
    let packet = [0x0A, 0x2A, 0x00];
    assert_eq!(Att::decode(&packet), Ok(Att::ReadReq { handle: 0x002A }));
}

#[test]
fn decode_read_by_group_type_short_uuid() {
    let packet = [0x10, 0x01, 0x00, 0xFF, 0xFF, 0x00, 0x28];
    assert_eq!(
        Att::decode(&packet),
        Ok(Att::ReadByGroupTypeReq { start: 1, end: 0xFFFF, group_type: Uuid::new_short(0x2800) })
    );
}

#[test]
fn decode_read_by_group_type_long_uuid() {
    let mut packet = vec![0x10, 0x01, 0x00, 0x10, 0x00];
    let long: [u8; 16] = [1, 2, 3, 4, 5, 6, 7, 8, 9, 10, 11, 12, 13, 14, 15, 16];
    packet.extend_from_slice(&long);
    assert_eq!(
        Att::decode(&packet),
        Ok(Att::ReadByGroupTypeReq { start: 1, end: 0x10, group_type: Uuid::new_long(long) })
    );
}

#[test]
fn decode_read_by_type_lengths() {
    let packet = [0x08, 0x01, 0x00, 0x05, 0x00, 0x03, 0x28];
    assert_eq!(
        Att::decode(&packet),
        Ok(Att::ReadByTypeReq { start: 1, end: 5, attribute_type: Uuid::new_short(0x2803) })
    );
    let odd = [0x08, 0x01, 0x00, 0x05, 0x00, 0x03];
    assert_eq!(Att::decode(&odd), Err(AttDecodeError::UnexpectedPayload));
    let odd2 = [0x10, 0x01, 0x00, 0x05, 0x00, 0x03, 0x28, 0x00];
    assert_eq!(Att::decode(&odd2), Err(AttDecodeError::UnexpectedPayload));
}

#[test]
fn decode_read_request_without_handle_fails() {
    let packet = [0x0A, 0x2A];
    assert_eq!(Att::decode(&packet), Err(AttDecodeError::UnexpectedPayload));
    let bare = [0x0A];
    assert_eq!(Att::decode(&bare), Err(AttDecodeError::UnexpectedPayload));
}

#[test]
fn decode_empty_packet_fails() {
    let packet: [u8; 0] = [];
    assert_eq!(Att::decode(&packet), Err(AttDecodeError::UnexpectedPayload));
}

#[test]
fn decode_unknown_opcode() {
    let packet = [0x7F, 0x00];
    assert_eq!(Att::decode(&packet), Err(AttDecodeError::UnknownOpcode(0x7F)));
}

#[test]
fn decode_write_request_and_command() {
    let packet = [0x12, 0x03, 0x00, 0xAA, 0xBB];
    assert_eq!(Att::decode(&packet), Ok(Att::WriteReq { handle: 3, data: &[0xAA, 0xBB] }));
    let cmd = [0x52, 0x04, 0x01];
    assert_eq!(Att::decode(&cmd), Ok(Att::WriteCmd { handle: 0x0104, data: &[] }));
}

#[test]
fn decode_fixed_field_requests() {
    assert_eq!(Att::decode(&[0x02, 0xF7, 0x00]), Ok(Att::ExchangeMtu { mtu: 247 }));
    assert_eq!(
        Att::decode(&[0x04, 0x01, 0x00, 0xFF, 0xFF]),
        Ok(Att::FindInformation { start_handle: 1, end_handle: 0xFFFF })
    );
    assert_eq!(
        Att::decode(&[0x06, 0x01, 0x00, 0xFF, 0xFF, 0x00, 0x28, 0x0F, 0x18]),
        Ok(Att::FindByTypeValue { start_handle: 1, end_handle: 0xFFFF, att_type: 0x2800, att_value: 0x180F })
    );
    assert_eq!(Att::decode(&[0x0C, 0x03, 0x00, 0x16, 0x00]), Ok(Att::ReadBlobReq { handle: 3, offset: 22 }));
    assert_eq!(Att::decode(&[0x18, 0x01]), Ok(Att::ExecuteWriteReq { flags: 1 }));
    assert_eq!(
        Att::decode(&[0x16, 0x03, 0x00, 0x02, 0x00, 0x09]),
        Ok(Att::PrepareWriteReq { handle: 3, offset: 2, value: &[0x09] })
    );
    assert_eq!(Att::decode(&[0x06, 0x01, 0x00]), Err(AttDecodeError::UnexpectedPayload));
    assert_eq!(Att::decode(&[0x18]), Err(AttDecodeError::UnexpectedPayload));
}

#[test]
fn handle_fields_survive_reencoding() {
    let handle: u16 = 0xBEEF;
    let offset: u16 = 0x0102;
    let bytes = [0x0C, (handle & 0xFF) as u8, (handle >> 8) as u8, (offset & 0xFF) as u8, (offset >> 8) as u8];
    assert_eq!(Att::decode(&bytes), Ok(Att::ReadBlobReq { handle, offset }));
    let tail = [9u8, 8, 7];
    let mut w = vec![0x16, (handle & 0xFF) as u8, (handle >> 8) as u8, (offset & 0xFF) as u8, (offset >> 8) as u8];
    w.extend_from_slice(&tail);
    assert_eq!(Att::decode(&w), Ok(Att::PrepareWriteReq { handle, offset, value: &tail }));
}

#[test]
fn att_error_codes() {
    assert_eq!(AttErrorCode::InvalidHandle.code(), 0x01);
    assert_eq!(AttErrorCode::InvalidOffset.code(), 0x07);
    assert_eq!(AttErrorCode::UnlikelyError.code(), 0x0E);
    assert_eq!(AttErrorCode::InsufficientResources.code(), 0x11);
}

#[test]
fn uuid_forms() {
    let short = Uuid::new_short(0x2A19);
    assert_eq!(short.as_raw(), &[0x19, 0x2A]);
    assert_eq!(short.get_type(), 1);
    assert_eq!(short.len(), 6);
    let long = Uuid::new_long([7; 16]);
    assert_eq!(long.get_type(), 2);
    assert_eq!(long.len(), 20);
    let mut out = [0u8; 2];
    short.bytes(&mut out);
    assert_eq!(out, [0x19, 0x2A]);
    assert_eq!(Uuid::from(0x180Fu16), Uuid::Uuid16([0x0F, 0x18]));
    assert_eq!(Uuid::from_slice(&[0x00, 0x28]), Some(Uuid::new_short(0x2800)));
    assert_eq!(Uuid::from_slice(&[7; 16]), Some(long));
    assert_eq!(Uuid::from_slice(&[1, 2, 3]), None);
}
