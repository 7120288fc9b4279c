use shmempipe::codec::{
    parse_startup_packet, parse_typed_message, put_u32_be, read_u32_be, slice_range_to_vec,
    BeMessage, FeMessage, FeStartupPacket, ProtocolError, CANCEL_REQUEST_CODE, SSL_REQUEST_CODE,
};

#[test]
fn big_endian_round_trip() {
    let mut out: Vec<u8> = Vec::new();
    put_u32_be(&mut out, 0xDEAD_BEEF);
    assert_eq!(out, vec![0xDE, 0xAD, 0xBE, 0xEF]);
    assert_eq!(read_u32_be(&out, 0), 0xDEAD_BEEF);
}

#[test]
fn request_codes_have_expected_values() {
    assert_eq!(SSL_REQUEST_CODE, 0x04D2_162F);
    assert_eq!(CANCEL_REQUEST_CODE, 0x04D2_162E);
}

#[test]
fn slice_range_copies_exactly() {
    let s = [1u8, 2, 3, 4, 5];
    assert_eq!(slice_range_to_vec(&s, 1, 4), vec![2, 3, 4]);
    assert_eq!(slice_range_to_vec(&s, 2, 2), Vec::<u8>::new());
}

#[test]
fn startup_parse_needs_more_input() {
    assert_eq!(parse_startup_packet(&[]), Ok(None));
    assert_eq!(parse_startup_packet(&[0, 0, 0]), Ok(None));
    // Length 16 announced, only 8 bytes present.
    assert_eq!(parse_startup_packet(&[0, 0, 0, 16, 0, 3, 0, 0]), Ok(None));
}

#[test]
fn startup_parse_rejects_short_length() {
    let r = parse_startup_packet(&[0, 0, 0, 5, 9, 9, 9, 9]);
    assert_eq!(r, Err(ProtocolError::BadStartupLength { length: 5 }));
}

#[test]
fn startup_parse_rejects_unsupported_version() {
    // Major version 2.
    let r = parse_startup_packet(&[0, 0, 0, 8, 0, 2, 0, 0]);
    assert_eq!(r, Err(ProtocolError::UnsupportedVersion { version: 0x0002_0000 }));
}

#[test]
fn startup_parse_recognizes_special_requests() {
    let ssl = parse_startup_packet(&[0x00, 0x00, 0x00, 0x08, 0x04, 0xD2, 0x16, 0x2F]);
    assert_eq!(ssl, Ok(Some((FeStartupPacket::SslRequest, 8))));
    let cancel = parse_startup_packet(&[0x00, 0x00, 0x00, 0x08, 0x04, 0xD2, 0x16, 0x2E]);
    assert_eq!(cancel, Ok(Some((FeStartupPacket::CancelRequest, 8))));
}

#[test]
fn startup_parse_accepts_startup_message() {
    // Length 16: 4 length bytes, 4 version bytes, 8 parameter bytes.
    let mut frame = vec![0, 0, 0, 16, 0, 3, 0, 0];
    frame.extend_from_slice(b"user\0x\0\0");
    let r = parse_startup_packet(&frame);
    match r {
        Ok(Some((FeStartupPacket::StartupMessage { version, params }, consumed))) => {
            assert_eq!(version, 0x0003_0000);
            assert_eq!(params, b"user\0x\0\0".to_vec());
            assert_eq!(consumed, 16);
        }
        other => panic!("unexpected parse result: {:?}", other),
    }
}

#[test]
fn typed_parse_needs_more_input() {
    assert_eq!(parse_typed_message(&[]), Ok(None));
    assert_eq!(parse_typed_message(&[b'Q', 0, 0, 0]), Ok(None));
    assert_eq!(parse_typed_message(&[b'Q', 0, 0, 0, 9, 1]), Ok(None));
}

#[test]
fn typed_parse_rejects_short_length() {
    let r = parse_typed_message(&[b'Q', 0, 0, 0, 3]);
    assert_eq!(r, Err(ProtocolError::BadTypedLength { length: 3 }));
}

#[test]
fn typed_parse_extracts_one_frame() {
    let bytes = [b'X', 0, 0, 0, 8, 1, 2, 3, 4, 9, 9];
    let r = parse_typed_message(&bytes);
    match r {
        Ok(Some((FeMessage::Typed { tag, body }, consumed))) => {
            assert_eq!(tag, b'X');
            assert_eq!(body, vec![1, 2, 3, 4]);
            assert_eq!(consumed, 9);
        }
        other => panic!("unexpected parse result: {:?}", other),
    }
}

#[test]
fn protocol_error_messages() {
    assert_eq!(
        ProtocolError::BadStartupLength { length: 5 }.message(),
        "invalid startup frame length"
    );
    assert_eq!(
        ProtocolError::UnsupportedVersion { version: 0x0002_0000 }.message(),
        "unsupported protocol version"
    );
    assert_eq!(
        ProtocolError::BadTypedLength { length: 3 }.message(),
        "invalid message frame length"
    );
    assert_eq!(ProtocolError::OversizedMessage.message(), "message too large to frame");
}

#[test]
fn be_message_write_produces_exact_frame() {
    let msg = BeMessage { tag: 0x5A, body: vec![1, 2, 3] };
    let mut out: Vec<u8> = Vec::new();
    msg.write(&mut out).unwrap();
    assert_eq!(out, vec![0x5A, 0, 0, 0, 7, 1, 2, 3]);
}

#[test]
fn encode_then_decode_yields_the_original() {
    let bodies: Vec<Vec<u8>> = vec![Vec::new(), vec![0], vec![1, 2, 3, 4, 5], vec![0xFF; 300]];
    for (i, body) in bodies.into_iter().enumerate() {
        let tag = b'A' + i as u8;
        let msg = BeMessage { tag, body: body.clone() };
        let mut out: Vec<u8> = Vec::new();
        msg.write(&mut out).unwrap();
        match parse_typed_message(&out) {
            Ok(Some((FeMessage::Typed { tag: t, body: b }, consumed))) => {
                assert_eq!(t, tag);
                assert_eq!(b, body);
                assert_eq!(consumed, out.len());
            }
            other => panic!("unexpected parse result: {:?}", other),
        }
    }
}
