use vstd::prelude::*;

use crate::codec::{from_le16, le16, u16_from_le};
use crate::uuid::Uuid;

verus! {

pub const ATT_ERROR_RESPONSE_OPCODE: u8 = 0x01;
pub const ATT_EXCHANGE_MTU_REQUEST_OPCODE: u8 = 0x02;
pub const ATT_EXCHANGE_MTU_RESPONSE_OPCODE: u8 = 0x03;
pub const ATT_FIND_INFORMATION_REQ_OPCODE: u8 = 0x04;
pub const ATT_FIND_INFORMATION_RSP_OPCODE: u8 = 0x05;
pub const ATT_FIND_BY_TYPE_VALUE_REQUEST_OPCODE: u8 = 0x06;
pub const ATT_FIND_BY_TYPE_VALUE_RESPONSE_OPCODE: u8 = 0x07;
pub const ATT_READ_BY_TYPE_REQUEST_OPCODE: u8 = 0x08;
pub const ATT_READ_BY_TYPE_RESPONSE_OPCODE: u8 = 0x09;
pub const ATT_READ_REQUEST_OPCODE: u8 = 0x0a;
pub const ATT_READ_RESPONSE_OPCODE: u8 = 0x0b;
pub const ATT_READ_BLOB_REQ_OPCODE: u8 = 0x0c;
pub const ATT_READ_BLOB_RESP_OPCODE: u8 = 0x0d;
pub const ATT_READ_BY_GROUP_TYPE_REQUEST_OPCODE: u8 = 0x10;
pub const ATT_READ_BY_GROUP_TYPE_RESPONSE_OPCODE: u8 = 0x11;
pub const ATT_WRITE_REQUEST_OPCODE: u8 = 0x12;
pub const ATT_WRITE_RESPONSE_OPCODE: u8 = 0x13;
pub const ATT_PREPARE_WRITE_REQ_OPCODE: u8 = 0x16;
pub const ATT_PREPARE_WRITE_RESP_OPCODE: u8 = 0x17;
pub const ATT_EXECUTE_WRITE_REQ_OPCODE: u8 = 0x18;
pub const ATT_EXECUTE_WRITE_RESP_OPCODE: u8 = 0x19;
pub const ATT_HANDLE_VALUE_NTF_OPTCODE: u8 = 0x1b;
pub const ATT_WRITE_CMD_OPCODE: u8 = 0x52;

/// Error codes an ATT server reports to its peer.
#[derive(Debug, Clone, Copy, PartialEq, Eq, Structural)]
pub enum AttErrorCode {
    /// Attempted to use a handle that isn't valid on this server.
    InvalidHandle,
    /// Attribute isn't readable.
    ReadNotPermitted,
    /// Attribute isn't writable.
    WriteNotPermitted,
    /// Attribute PDU is invalid.
    InvalidPdu,
    /// Authentication needed before attribute can be read/written.
    InsufficientAuthentication,
    /// Server doesn't support this operation.
    RequestNotSupported,
    /// Offset was past the end of the attribute.
    InvalidOffset,
    /// Authorization needed before attribute can be read/written.
    InsufficientAuthorization,
    /// Too many "prepare write" requests have been queued.
    PrepareQueueFull,
    /// No attribute found within the specified attribute handle range.
    AttributeNotFound,
    /// Attribute can't be read/written using a Read Blob request.
    AttributeNotLong,
    /// The encryption key in use is too weak to access an attribute.
    InsufficientEncryptionKeySize,
    /// Attribute value has an incorrect length for the operation.
    InvalidAttributeValueLength,
    /// Request has encountered an "unlikely" error and could not be completed.
    UnlikelyError,
    /// Attribute cannot be read/written without an encrypted connection.
    InsufficientEncryption,
    /// Attribute type is an invalid grouping attribute according to a higher-layer spec.
    UnsupportedGroupType,
    /// Server didn't have enough resources to complete a request.
    InsufficientResources,
}

impl AttErrorCode {
    pub open spec fn spec_code(self) -> u8 {
        match self {
            AttErrorCode::InvalidHandle => 0x01,
            AttErrorCode::ReadNotPermitted => 0x02,
            AttErrorCode::WriteNotPermitted => 0x03,
            AttErrorCode::InvalidPdu => 0x04,
            AttErrorCode::InsufficientAuthentication => 0x05,
            AttErrorCode::RequestNotSupported => 0x06,
            AttErrorCode::InvalidOffset => 0x07,
            AttErrorCode::InsufficientAuthorization => 0x08,
            AttErrorCode::PrepareQueueFull => 0x09,
            AttErrorCode::AttributeNotFound => 0x0A,
            AttErrorCode::AttributeNotLong => 0x0B,
            AttErrorCode::InsufficientEncryptionKeySize => 0x0C,
            AttErrorCode::InvalidAttributeValueLength => 0x0D,
            AttErrorCode::UnlikelyError => 0x0E,
            AttErrorCode::InsufficientEncryption => 0x0F,
            AttErrorCode::UnsupportedGroupType => 0x10,
            AttErrorCode::InsufficientResources => 0x11,
        }
    }

    /// The byte that carries this error in an Error Response.
    pub fn code(&self) -> (r: u8)
        ensures
            r == self.spec_code(),
    {
        match self {
            AttErrorCode::InvalidHandle => 0x01,
            AttErrorCode::ReadNotPermitted => 0x02,
            AttErrorCode::WriteNotPermitted => 0x03,
            AttErrorCode::InvalidPdu => 0x04,
            AttErrorCode::InsufficientAuthentication => 0x05,
            AttErrorCode::RequestNotSupported => 0x06,
            AttErrorCode::InvalidOffset => 0x07,
            AttErrorCode::InsufficientAuthorization => 0x08,
            AttErrorCode::PrepareQueueFull => 0x09,
            AttErrorCode::AttributeNotFound => 0x0A,
            AttErrorCode::AttributeNotLong => 0x0B,
            AttErrorCode::InsufficientEncryptionKeySize => 0x0C,
            AttErrorCode::InvalidAttributeValueLength => 0x0D,
            AttErrorCode::UnlikelyError => 0x0E,
            AttErrorCode::InsufficientEncryption => 0x0F,
            AttErrorCode::UnsupportedGroupType => 0x10,
            AttErrorCode::InsufficientResources => 0x11,
        }
    }
}

/// A request PDU received by an ATT server. Variable-length tails borrow
/// from the packet they were decoded from.
#[derive(Debug, Clone, Copy, PartialEq, Eq)]
pub enum Att<'d> {
    ReadByGroupTypeReq { start: u16, end: u16, group_type: Uuid },
    ReadByTypeReq { start: u16, end: u16, attribute_type: Uuid },
    ReadReq { handle: u16 },
    WriteReq { handle: u16, data: &'d [u8] },
    WriteCmd { handle: u16, data: &'d [u8] },
    ExchangeMtu { mtu: u16 },
    FindByTypeValue { start_handle: u16, end_handle: u16, att_type: u16, att_value: u16 },
    FindInformation { start_handle: u16, end_handle: u16 },
    PrepareWriteReq { handle: u16, offset: u16, value: &'d [u8] },
    ExecuteWriteReq { flags: u8 },
    ReadBlobReq { handle: u16, offset: u16 },
}

/// What a request holds, as plain values: tails and UUIDs become byte sequences.
pub enum AttRequest {
    ReadByGroupTypeReq { start: u16, end: u16, group_type: Seq<u8> },
    ReadByTypeReq { start: u16, end: u16, attribute_type: Seq<u8> },
    ReadReq { handle: u16 },
    WriteReq { handle: u16, data: Seq<u8> },
    WriteCmd { handle: u16, data: Seq<u8> },
    ExchangeMtu { mtu: u16 },
    FindByTypeValue { start_handle: u16, end_handle: u16, att_type: u16, att_value: u16 },
    FindInformation { start_handle: u16, end_handle: u16 },
    PrepareWriteReq { handle: u16, offset: u16, value: Seq<u8> },
    ExecuteWriteReq { flags: u8 },
    ReadBlobReq { handle: u16, offset: u16 },
}

/// Why a packet could not be decoded.
#[derive(Debug, Clone, Copy, PartialEq, Eq, Structural)]
pub enum AttDecodeError {
    Other,
    UnknownOpcode(u8),
    UnexpectedPayload,
}

impl<'d> View for Att<'d> {
    type V = AttRequest;

    open spec fn view(&self) -> AttRequest {
        match *self {
            Att::ReadByGroupTypeReq { start, end, group_type } => AttRequest::ReadByGroupTypeReq {
                start,
                end,
                group_type: group_type.raw(),
            },
            Att::ReadByTypeReq { start, end, attribute_type } => AttRequest::ReadByTypeReq {
                start,
                end,
                attribute_type: attribute_type.raw(),
            },
            Att::ReadReq { handle } => AttRequest::ReadReq { handle },
            Att::WriteReq { handle, data } => AttRequest::WriteReq { handle, data: data@ },
            Att::WriteCmd { handle, data } => AttRequest::WriteCmd { handle, data: data@ },
            Att::ExchangeMtu { mtu } => AttRequest::ExchangeMtu { mtu },
            Att::FindByTypeValue { start_handle, end_handle, att_type, att_value } =>
                AttRequest::FindByTypeValue { start_handle, end_handle, att_type, att_value },
            Att::FindInformation { start_handle, end_handle } => AttRequest::FindInformation {
                start_handle,
                end_handle,
            },
            Att::PrepareWriteReq { handle, offset, value } => AttRequest::PrepareWriteReq {
                handle,
                offset,
                value: value@,
            },
            Att::ExecuteWriteReq { flags } => AttRequest::ExecuteWriteReq { flags },
            Att::ReadBlobReq { handle, offset } => AttRequest::ReadBlobReq { handle, offset },
        }
    }
}

/// The model of a decoding result.
pub open spec fn decode_result_view(r: Result<Att, AttDecodeError>) -> Result<
    AttRequest,
    AttDecodeError,
> {
    match r {
        Ok(a) => Ok(a@),
        Err(e) => Err(e),
    }
}

/// The little-endian 16-bit field at byte `i` of `p`.
pub open spec fn u16_at(p: Seq<u8>, i: int) -> u16 {
    from_le16(p[i], p[i + 1])
}

/// The UUID field of a Read By Type or Read By Group Type request, decided
/// by the payload length: 6 bytes carry a 16-bit UUID, 20 bytes a 128-bit one.
pub open spec fn uuid_field(p: Seq<u8>) -> Option<Seq<u8>> {
    if p.len() == 6 || p.len() == 20 {
        Some(p.subrange(4, p.len() as int))
    } else {
        None
    }
}

/// What a packet (opcode byte, then payload) decodes to.
pub open spec fn parse_att(packet: Seq<u8>) -> Result<AttRequest, AttDecodeError> {
    if packet.len() == 0 {
        Err(AttDecodeError::UnexpectedPayload)
    } else {
        let op = packet[0];
        let p = packet.drop_first();
        if op == ATT_READ_BY_GROUP_TYPE_REQUEST_OPCODE {
            match uuid_field(p) {
                Some(u) => Ok(
                    AttRequest::ReadByGroupTypeReq {
                        start: u16_at(p, 0),
                        end: u16_at(p, 2),
                        group_type: u,
                    },
                ),
                None => Err(AttDecodeError::UnexpectedPayload),
            }
        } else if op == ATT_READ_BY_TYPE_REQUEST_OPCODE {
            match uuid_field(p) {
                Some(u) => Ok(
                    AttRequest::ReadByTypeReq {
                        start: u16_at(p, 0),
                        end: u16_at(p, 2),
                        attribute_type: u,
                    },
                ),
                None => Err(AttDecodeError::UnexpectedPayload),
            }
        } else if op == ATT_READ_REQUEST_OPCODE {
            if p.len() < 2 {
                Err(AttDecodeError::UnexpectedPayload)
            } else {
                Ok(AttRequest::ReadReq { handle: u16_at(p, 0) })
            }
        } else if op == ATT_WRITE_REQUEST_OPCODE {
            if p.len() < 2 {
                Err(AttDecodeError::UnexpectedPayload)
            } else {
                Ok(
                    AttRequest::WriteReq {
                        handle: u16_at(p, 0),
                        data: p.subrange(2, p.len() as int),
                    },
                )
            }
        } else if op == ATT_WRITE_CMD_OPCODE {
            if p.len() < 2 {
                Err(AttDecodeError::UnexpectedPayload)
            } else {
                Ok(
                    AttRequest::WriteCmd {
                        handle: u16_at(p, 0),
                        data: p.subrange(2, p.len() as int),
                    },
                )
            }
        } else if op == ATT_EXCHANGE_MTU_REQUEST_OPCODE {
            if p.len() < 2 {
                Err(AttDecodeError::UnexpectedPayload)
            } else {
                Ok(AttRequest::ExchangeMtu { mtu: u16_at(p, 0) })
            }
        } else if op == ATT_FIND_BY_TYPE_VALUE_REQUEST_OPCODE {
            if p.len() < 8 {
                Err(AttDecodeError::UnexpectedPayload)
            } else {
                Ok(
                    AttRequest::FindByTypeValue {
                        start_handle: u16_at(p, 0),
                        end_handle: u16_at(p, 2),
                        att_type: u16_at(p, 4),
                        att_value: u16_at(p, 6),
                    },
                )
            }
        } else if op == ATT_FIND_INFORMATION_REQ_OPCODE {
            if p.len() < 4 {
                Err(AttDecodeError::UnexpectedPayload)
            } else {
                Ok(
                    AttRequest::FindInformation {
                        start_handle: u16_at(p, 0),
                        end_handle: u16_at(p, 2),
                    },
                )
            }
        } else if op == ATT_PREPARE_WRITE_REQ_OPCODE {
            if p.len() < 4 {
                Err(AttDecodeError::UnexpectedPayload)
            } else {
                Ok(
                    AttRequest::PrepareWriteReq {
                        handle: u16_at(p, 0),
                        offset: u16_at(p, 2),
                        value: p.subrange(4, p.len() as int),
                    },
                )
            }
        } else if op == ATT_EXECUTE_WRITE_REQ_OPCODE {
            if p.len() < 1 {
                Err(AttDecodeError::UnexpectedPayload)
            } else {
                Ok(AttRequest::ExecuteWriteReq { flags: p[0] })
            }
        } else if op == ATT_READ_BLOB_REQ_OPCODE {
            if p.len() < 4 {
                Err(AttDecodeError::UnexpectedPayload)
            } else {
                Ok(AttRequest::ReadBlobReq { handle: u16_at(p, 0), offset: u16_at(p, 2) })
            }
        } else {
            Err(AttDecodeError::UnknownOpcode(op))
        }
    }
}

/// The wire form of a request: opcode byte, then the fields in order.
pub open spec fn encode_att(m: AttRequest) -> Seq<u8> {
    match m {
        AttRequest::ReadByGroupTypeReq { start, end, group_type } => seq![
            ATT_READ_BY_GROUP_TYPE_REQUEST_OPCODE,
        ] + le16(start) + le16(end) + group_type,
        AttRequest::ReadByTypeReq { start, end, attribute_type } => seq![
            ATT_READ_BY_TYPE_REQUEST_OPCODE,
        ] + le16(start) + le16(end) + attribute_type,
        AttRequest::ReadReq { handle } => seq![ATT_READ_REQUEST_OPCODE] + le16(handle),
        AttRequest::WriteReq { handle, data } => seq![ATT_WRITE_REQUEST_OPCODE] + le16(handle)
            + data,
        AttRequest::WriteCmd { handle, data } => seq![ATT_WRITE_CMD_OPCODE] + le16(handle) + data,
        AttRequest::ExchangeMtu { mtu } => seq![ATT_EXCHANGE_MTU_REQUEST_OPCODE] + le16(mtu),
        AttRequest::FindByTypeValue { start_handle, end_handle, att_type, att_value } => seq![
            ATT_FIND_BY_TYPE_VALUE_REQUEST_OPCODE,
        ] + le16(start_handle) + le16(end_handle) + le16(att_type) + le16(att_value),
        AttRequest::FindInformation { start_handle, end_handle } => seq![
            ATT_FIND_INFORMATION_REQ_OPCODE,
        ] + le16(start_handle) + le16(end_handle),
        AttRequest::PrepareWriteReq { handle, offset, value } => seq![
            ATT_PREPARE_WRITE_REQ_OPCODE,
        ] + le16(handle) + le16(offset) + value,
        AttRequest::ExecuteWriteReq { flags } => seq![ATT_EXECUTE_WRITE_REQ_OPCODE, flags],
        AttRequest::ReadBlobReq { handle, offset } => seq![ATT_READ_BLOB_REQ_OPCODE] + le16(
            handle,
        ) + le16(offset),
    }
}

/// A request that has a wire form: each UUID field holds 2 or 16 bytes.
pub open spec fn encodable(m: AttRequest) -> bool {
    match m {
        AttRequest::ReadByGroupTypeReq { group_type, .. } => group_type.len() == 2
            || group_type.len() == 16,
        AttRequest::ReadByTypeReq { attribute_type, .. } => attribute_type.len() == 2
            || attribute_type.len() == 16,
        _ => true,
    }
}

/// Decoding the wire form of a request gives back every field of it: the
/// 16-bit handles, offsets and values, the UUID and the borrowed tail.
pub proof fn lemma_att_round_trip(m: AttRequest)
    requires
        encodable(m),
    ensures
        parse_att(encode_att(m)) == Ok::<AttRequest, AttDecodeError>(m),
{
    let e = encode_att(m);
    let p = e.drop_first();
    match m {
        AttRequest::ReadByGroupTypeReq { start, end, group_type } => {
            assert(p =~= le16(start) + le16(end) + group_type);
            assert(p.subrange(4, p.len() as int) =~= group_type);
        },
        AttRequest::ReadByTypeReq { start, end, attribute_type } => {
            assert(p =~= le16(start) + le16(end) + attribute_type);
            assert(p.subrange(4, p.len() as int) =~= attribute_type);
        },
        AttRequest::ReadReq { handle } => {
            assert(p =~= le16(handle));
        },
        AttRequest::WriteReq { handle, data } => {
            assert(p =~= le16(handle) + data);
            assert(p.subrange(2, p.len() as int) =~= data);
        },
        AttRequest::WriteCmd { handle, data } => {
            assert(p =~= le16(handle) + data);
            assert(p.subrange(2, p.len() as int) =~= data);
        },
        AttRequest::ExchangeMtu { mtu } => {
            assert(p =~= le16(mtu));
        },
        AttRequest::FindByTypeValue { start_handle, end_handle, att_type, att_value } => {
            assert(p =~= le16(start_handle) + le16(end_handle) + le16(att_type) + le16(
                att_value,
            ));
        },
        AttRequest::FindInformation { start_handle, end_handle } => {
            assert(p =~= le16(start_handle) + le16(end_handle));
        },
        AttRequest::PrepareWriteReq { handle, offset, value } => {
            assert(p =~= le16(handle) + le16(offset) + value);
            assert(p.subrange(4, p.len() as int) =~= value);
        },
        AttRequest::ExecuteWriteReq { flags } => {
            assert(p =~= seq![flags]);
        },
        AttRequest::ReadBlobReq { handle, offset } => {
            assert(p =~= le16(handle) + le16(offset));
        },
    }
}

/// The little-endian 16-bit field at byte `i` of `p`.
fn read_u16_at(p: &[u8], i: usize) -> (r: u16)
    requires
        i + 1 < p@.len(),
    ensures
        r == u16_at(p@, i as int),
{
    u16_from_le(p[i], p[i + 1])
}

/// The UUID field of a Read By Type or Read By Group Type payload.
fn read_uuid_field(p: &[u8]) -> (r: Option<Uuid>)
    ensures
        uuid_field(p@) is Some <==> r is Some,
        r is Some ==> r.unwrap().raw() == uuid_field(p@).unwrap(),
{
    if p.len() == 6 {
        let u = Uuid::Uuid16([p[4], p[5]]);
        assert(u.raw() =~= p@.subrange(4, 6));
        Some(u)
    } else if p.len() == 20 {
        Uuid::from_slice(vstd::slice::slice_subrange(p, 4, 20))
    } else {
        None
    }
}

impl<'d> Att<'d> {
    /// Decodes one request packet: an opcode byte followed by its payload.
    /// Malformed packets are reported, never indexed past their end.
    pub fn decode(packet: &'d [u8]) -> (r: Result<Att<'d>, AttDecodeError>)
        ensures
            decode_result_view(r) == parse_att(packet@),
    {
        if packet.len() == 0 {
            return Err(AttDecodeError::UnexpectedPayload);
        }
        let opcode = packet[0];
        let payload = vstd::slice::slice_subrange(packet, 1, packet.len());
        assert(payload@ =~= packet@.drop_first());
        let n = payload.len();
        if opcode == ATT_READ_BY_GROUP_TYPE_REQUEST_OPCODE {
            match read_uuid_field(payload) {
                Some(group_type) => Ok(
                    Att::ReadByGroupTypeReq {
                        start: read_u16_at(payload, 0),
                        end: read_u16_at(payload, 2),
                        group_type,
                    },
                ),
                None => Err(AttDecodeError::UnexpectedPayload),
            }
        } else if opcode == ATT_READ_BY_TYPE_REQUEST_OPCODE {
            match read_uuid_field(payload) {
                Some(attribute_type) => Ok(
                    Att::ReadByTypeReq {
                        start: read_u16_at(payload, 0),
                        end: read_u16_at(payload, 2),
                        attribute_type,
                    },
                ),
                None => Err(AttDecodeError::UnexpectedPayload),
            }
        } else if opcode == ATT_READ_REQUEST_OPCODE {
            if n < 2 {
                return Err(AttDecodeError::UnexpectedPayload);
            }
            Ok(Att::ReadReq { handle: read_u16_at(payload, 0) })
        } else if opcode == ATT_WRITE_REQUEST_OPCODE {
            if n < 2 {
                return Err(AttDecodeError::UnexpectedPayload);
            }
            let data = vstd::slice::slice_subrange(payload, 2, n);
            Ok(Att::WriteReq { handle: read_u16_at(payload, 0), data })
        } else if opcode == ATT_WRITE_CMD_OPCODE {
            if n < 2 {
                return Err(AttDecodeError::UnexpectedPayload);
            }
            let data = vstd::slice::slice_subrange(payload, 2, n);
            Ok(Att::WriteCmd { handle: read_u16_at(payload, 0), data })
        } else if opcode == ATT_EXCHANGE_MTU_REQUEST_OPCODE {
            if n < 2 {
                return Err(AttDecodeError::UnexpectedPayload);
            }
            Ok(Att::ExchangeMtu { mtu: read_u16_at(payload, 0) })
        } else if opcode == ATT_FIND_BY_TYPE_VALUE_REQUEST_OPCODE {
            if n < 8 {
                return Err(AttDecodeError::UnexpectedPayload);
            }
            Ok(
                Att::FindByTypeValue {
                    start_handle: read_u16_at(payload, 0),
                    end_handle: read_u16_at(payload, 2),
                    att_type: read_u16_at(payload, 4),
                    att_value: read_u16_at(payload, 6),
                },
            )
        } else if opcode == ATT_FIND_INFORMATION_REQ_OPCODE {
            if n < 4 {
                return Err(AttDecodeError::UnexpectedPayload);
            }
            Ok(
                Att::FindInformation {
                    start_handle: read_u16_at(payload, 0),
                    end_handle: read_u16_at(payload, 2),
                },
            )
        } else if opcode == ATT_PREPARE_WRITE_REQ_OPCODE {
            if n < 4 {
                return Err(AttDecodeError::UnexpectedPayload);
            }
            let value = vstd::slice::slice_subrange(payload, 4, n);
            Ok(
                Att::PrepareWriteReq {
                    handle: read_u16_at(payload, 0),
                    offset: read_u16_at(payload, 2),
                    value,
                },
            )
        } else if opcode == ATT_EXECUTE_WRITE_REQ_OPCODE {
            if n < 1 {
                return Err(AttDecodeError::UnexpectedPayload);
            }
            Ok(Att::ExecuteWriteReq { flags: payload[0] })
        } else if opcode == ATT_READ_BLOB_REQ_OPCODE {
            if n < 4 {
                return Err(AttDecodeError::UnexpectedPayload);
            }
            Ok(
                Att::ReadBlobReq {
                    handle: read_u16_at(payload, 0),
                    offset: read_u16_at(payload, 2),
                },
            )
        } else {
            Err(AttDecodeError::UnknownOpcode(opcode))
        }
    }
}

} // verus!
