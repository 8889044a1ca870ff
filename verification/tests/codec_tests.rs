use xim::codec::{
    decode_header, decode_request, encode_request, frame_len, opcode_of_shape, shape_of_opcode,
};
use xim::enums::Opcode;
use xim::error::{DecodeError, EncodeError};
use xim::prim::Endian;
use xim::types::{Connect, ConnectReply, Request, RequestHeader, XimString};

fn connect_msg(names: Vec<&[u8]>) -> Request {
    Request::Connect(Connect {
        client_major_protocol_version: 1,
        client_minor_protocol_version: 0,
        client_auth_protocol_names: names.into_iter().map(|n| XimString(n.to_vec())).collect(),
    })
}

#[test]
fn round_trip_connect_both_endians() {
    let m = connect_msg(vec![b"hello", b"auth-x"]);
    for e in [Endian::Big, Endian::Little] {
        let bytes = encode_request(e, &m).unwrap();
        let (decoded, consumed) = decode_request(e, &bytes).unwrap();
        assert_eq!(decoded, m);
        assert_eq!(consumed, bytes.len());
    }
}

#[test]
fn round_trip_connect_empty_names() {
    let m = connect_msg(vec![]);
    let bytes = encode_request(Endian::Big, &m).unwrap();
    let (decoded, consumed) = decode_request(Endian::Big, &bytes).unwrap();
    assert_eq!(decoded, m);
    assert_eq!(consumed, bytes.len());
}

#[test]
fn round_trip_connect_largest_name() {
    let m = connect_msg(vec![&[7u8; 255]]);
    let bytes = encode_request(Endian::Big, &m).unwrap();
    let (decoded, consumed) = decode_request(Endian::Big, &bytes).unwrap();
    assert_eq!(decoded, m);
    assert_eq!(consumed, bytes.len());
}

#[test]
fn round_trip_connect_reply() {
    let m = Request::ConnectReply(ConnectReply {
        server_major_protocol_version: 2,
        server_minor_protocol_version: 3,
    });
    for e in [Endian::Big, Endian::Little] {
        let bytes = encode_request(e, &m).unwrap();
        assert_eq!(bytes.len(), 8);
        let (decoded, consumed) = decode_request(e, &bytes).unwrap();
        assert_eq!(decoded, m);
        assert_eq!(consumed, 8);
    }
}

#[test]
fn connect_scenario_exact_bytes() {
    // Connect with versions 1.0 and no auth names: header (1, 0, length 1),
    // then the 4 payload bytes 00 01 00 00, nothing more.
    let m = connect_msg(vec![]);
    let bytes = encode_request(Endian::Big, &m).unwrap();
    assert_eq!(bytes, vec![1, 0, 0, 1, 0, 1, 0, 0]);
    let h = decode_header(Endian::Big, &bytes).unwrap();
    assert_eq!(
        h,
        RequestHeader { major_opcode: Opcode::Connect, minor_opcode: 0, length: 1 }
    );
}

#[test]
fn short_buffers_are_incomplete() {
    assert_eq!(decode_request(Endian::Big, &[]), Err(DecodeError::Incomplete));
    assert_eq!(decode_request(Endian::Big, &[1, 0]), Err(DecodeError::Incomplete));
    assert_eq!(decode_request(Endian::Big, &[1, 0, 0]), Err(DecodeError::Incomplete));
    // A full header declaring one 4-byte unit, but only 2 payload bytes.
    assert_eq!(
        decode_request(Endian::Big, &[1, 0, 0, 1, 0, 1]),
        Err(DecodeError::Incomplete)
    );
}

#[test]
fn header_completes_when_remaining_bytes_arrive() {
    // Only 2 of the 4 header bytes: incomplete, retry is expected.
    assert_eq!(decode_header(Endian::Big, &[2, 0]), Err(DecodeError::Incomplete));
    // The remaining 2 bytes arrive: the same prefix now decodes.
    let h = decode_header(Endian::Big, &[2, 0, 0, 1]).unwrap();
    assert_eq!(
        h,
        RequestHeader { major_opcode: Opcode::ConnectReply, minor_opcode: 0, length: 1 }
    );
}

#[test]
fn string_overrun_is_malformed() {
    // Connect frame with 8 payload bytes whose name list declares a
    // 200-byte string: the declared length overruns the payload.
    let bytes = [1, 0, 0, 2, 0, 1, 0, 0, 200, 0, 0, 0];
    assert_eq!(decode_request(Endian::Big, &bytes), Err(DecodeError::Malformed));
}

#[test]
fn connect_payload_shorter_than_versions_is_malformed() {
    // A Connect frame whose declared payload is zero bytes cannot hold its
    // version fields.
    let bytes = [1, 0, 0, 0];
    assert_eq!(decode_request(Endian::Big, &bytes), Err(DecodeError::Malformed));
}

#[test]
fn connect_reply_wrong_length_is_malformed() {
    let bytes = [2, 0, 0, 2, 0, 1, 0, 0, 0, 0, 0, 0];
    assert_eq!(decode_request(Endian::Big, &bytes), Err(DecodeError::Malformed));
}

#[test]
fn unregistered_opcode_is_unknown() {
    // Disconnect is a known opcode byte with no registered payload shape.
    let bytes = [3, 0, 0, 0];
    assert_eq!(decode_request(Endian::Big, &bytes), Err(DecodeError::UnknownOpcode));
    // A registered major opcode under a nonzero minor opcode is unknown too.
    let bytes = [1, 9, 0, 1, 0, 1, 0, 0];
    assert_eq!(decode_request(Endian::Big, &bytes), Err(DecodeError::UnknownOpcode));
}

#[test]
fn unknown_frames_can_be_skipped_by_length() {
    // An unknown-opcode frame followed by a decodable one: the caller
    // skips the declared frame and keeps its framing.
    let mut stream = vec![3, 0, 0, 1, 9, 9, 9, 9];
    let reply = Request::ConnectReply(ConnectReply {
        server_major_protocol_version: 1,
        server_minor_protocol_version: 2,
    });
    stream.extend(encode_request(Endian::Big, &reply).unwrap());
    assert_eq!(decode_request(Endian::Big, &stream), Err(DecodeError::UnknownOpcode));
    let skip = frame_len(Endian::Big, &stream).unwrap();
    assert_eq!(skip, 8);
    let (decoded, _) = decode_request(Endian::Big, &stream[skip..]).unwrap();
    assert_eq!(decoded, reply);
    assert_eq!(frame_len(Endian::Big, &[1, 0]), Err(DecodeError::Incomplete));
}

#[test]
fn undefined_opcode_byte_is_invalid_enum_value() {
    let bytes = [5, 0, 0, 0];
    assert_eq!(decode_request(Endian::Big, &bytes), Err(DecodeError::InvalidEnumValue));
    // 30 sits between defined opcode values and names none.
    let bytes = [30, 0, 0, 0];
    assert_eq!(decode_request(Endian::Big, &bytes), Err(DecodeError::InvalidEnumValue));
}

#[test]
fn encoded_messages_are_padded_to_four_bytes() {
    let cases = vec![
        connect_msg(vec![]),
        connect_msg(vec![b"a"]),
        connect_msg(vec![b"ab", b"abc", b"abcd"]),
        Request::ConnectReply(ConnectReply {
            server_major_protocol_version: 9,
            server_minor_protocol_version: 9,
        }),
    ];
    for m in cases {
        let bytes = encode_request(Endian::Big, &m).unwrap();
        assert_eq!(bytes.len() % 4, 0);
        assert_eq!((bytes.len() - 4) % 4, 0);
    }
}

#[test]
fn oversize_name_is_refused() {
    let m = connect_msg(vec![&[0u8; 256]]);
    assert_eq!(encode_request(Endian::Big, &m), Err(EncodeError::StringTooLong));
}

#[test]
fn oversize_payload_is_refused() {
    // 1100 names of 255 bytes occupy 256 bytes each once padded: well past
    // the 262140 bytes the header's length field can declare.
    let name = [1u8; 255];
    let names: Vec<&[u8]> = (0..1100).map(|_| &name[..]).collect();
    let m = connect_msg(names);
    assert_eq!(encode_request(Endian::Big, &m), Err(EncodeError::PayloadTooLong));
}

#[test]
fn request_opcode_matches_variant() {
    assert_eq!(connect_msg(vec![]).opcode(), Opcode::Connect);
    let reply = Request::ConnectReply(ConnectReply {
        server_major_protocol_version: 1,
        server_minor_protocol_version: 0,
    });
    assert_eq!(reply.opcode(), Opcode::ConnectReply);
}

#[test]
fn registry_agrees_with_message_opcodes() {
    // The opcode a message encodes under resolves, through the registry,
    // to a shape that is framed under that same opcode pair.
    let messages = [
        connect_msg(vec![]),
        Request::ConnectReply(ConnectReply {
            server_major_protocol_version: 1,
            server_minor_protocol_version: 0,
        }),
    ];
    for m in messages {
        let shape = shape_of_opcode(m.opcode(), 0).unwrap();
        assert_eq!(opcode_of_shape(shape), (m.opcode(), 0));
    }
    // Unregistered opcodes resolve to no shape.
    assert_eq!(shape_of_opcode(Opcode::Commit, 0), None);
    assert_eq!(shape_of_opcode(Opcode::Connect, 1), None);
}

#[test]
fn opcode_bytes_round_trip() {
    let all = [
        (Opcode::Connect, 1),
        (Opcode::ConnectReply, 2),
        (Opcode::Disconnect, 3),
        (Opcode::DisconnectReply, 4),
        (Opcode::OpenReply, 31),
        (Opcode::CloseReply, 33),
        (Opcode::RegisterTriggerKeys, 34),
        (Opcode::TriggerNotifyReply, 36),
        (Opcode::SetEventMask, 37),
        (Opcode::EncodingNegotiationReply, 39),
        (Opcode::QueryExtensionReply, 41),
        (Opcode::SetImValuesReply, 43),
        (Opcode::GetImValuesReply, 45),
        (Opcode::CreateIcReply, 51),
        (Opcode::DestroyIcReply, 53),
        (Opcode::SetIcValuesReply, 55),
        (Opcode::GetIcValuesReply, 57),
        (Opcode::SyncReply, 62),
        (Opcode::Commit, 63),
        (Opcode::ResetIcReply, 65),
        (Opcode::Geometry, 70),
        (Opcode::StrConversion, 71),
        (Opcode::PreeditStart, 73),
        (Opcode::PreeditDraw, 75),
        (Opcode::PreeditCaret, 76),
        (Opcode::PreeditDone, 78),
        (Opcode::StatusStart, 79),
        (Opcode::StatusDraw, 80),
        (Opcode::StatusDone, 81),
        (Opcode::PreeditState, 82),
    ];
    for (op, byte) in all {
        assert_eq!(op.to_u8(), byte);
        assert_eq!(Opcode::from_u8(byte), Some(op));
    }
    for bad in [0u8, 5, 30, 32, 35, 38, 40, 42, 44, 46, 50, 83, 200, 255] {
        assert_eq!(Opcode::from_u8(bad), None);
    }
}
