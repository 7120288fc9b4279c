use shmempipe::codec::{BeMessage, FeMessage, FeStartupPacket, ProtocolError};
use shmempipe::framed::{ConnectionError, Framed, IoKind};

fn startup_message_frame() -> Vec<u8> {
    let mut frame = vec![0, 0, 0, 16, 0, 3, 0, 0];
    frame.extend_from_slice(b"user\0x\0\0");
    frame
}

#[test]
fn startup_sequence_ssl_then_cancel_then_startup() {
    let mut f = Framed::new();

    // An SSL request does not advance the startup state machine.
    f.feed(&[0x00, 0x00, 0x00, 0x08, 0x04, 0xD2, 0x16, 0x2F]);
    let m = f.decode().unwrap().unwrap();
    assert_eq!(m, FeMessage::StartupPacket(FeStartupPacket::SslRequest));

    // Neither does a cancel request: the next frame is still parsed by
    // the startup grammar.
    f.feed(&[0x00, 0x00, 0x00, 0x08, 0x04, 0xD2, 0x16, 0x2E]);
    let m = f.decode().unwrap().unwrap();
    assert_eq!(m, FeMessage::StartupPacket(FeStartupPacket::CancelRequest));

    // A startup message proper advances to typed-frame mode.
    f.feed(&startup_message_frame());
    let m = f.decode().unwrap().unwrap();
    match m {
        FeMessage::StartupPacket(FeStartupPacket::StartupMessage { version, params }) => {
            assert_eq!(version, 0x0003_0000);
            assert_eq!(params, b"user\0x\0\0".to_vec());
        }
        other => panic!("unexpected message: {:?}", other),
    }

    // Frames now carry a type byte first: the startup parser is never
    // invoked again.
    f.feed(&[b'Q', 0x00, 0x00, 0x00, 0x08, 0x04, 0xD2, 0x16, 0x2F]);
    let m = f.decode().unwrap().unwrap();
    assert_eq!(m, FeMessage::Typed { tag: b'Q', body: vec![0x04, 0xD2, 0x16, 0x2F] });
}

#[test]
fn decode_waits_for_whole_frames_and_keeps_partial_bytes() {
    let mut f = Framed::new();
    let frame = startup_message_frame();
    f.feed(&frame[..7]);
    assert_eq!(f.decode(), Ok(None));
    f.feed(&frame[7..]);
    let m = f.decode().unwrap().unwrap();
    match m {
        FeMessage::StartupPacket(FeStartupPacket::StartupMessage { .. }) => {}
        other => panic!("unexpected message: {:?}", other),
    }
    // Exactly one frame was consumed: nothing is left over.
    assert_eq!(f.decode(), Ok(None));
}

#[test]
fn unexpected_eof_with_partial_frame() {
    let mut f = Framed::new();
    f.feed(&[0x00, 0x00, 0x00]);
    assert_eq!(f.decode(), Ok(None));
    match f.on_read_closed() {
        Err(ConnectionError::Io(e)) => {
            assert_eq!(e.kind, IoKind::UnexpectedEof);
            assert_eq!(e.message, "EOF with unprocessed data in the buffer");
        }
        other => panic!("unexpected result: {:?}", other),
    }
}

#[test]
fn decode_error_leaves_the_buffer_unchanged() {
    let mut f = Framed::new();
    // A startup length too short to cover its mandatory bytes.
    f.feed(&[0, 0, 0, 5, 1, 2, 3, 4]);
    let first = f.decode();
    assert_eq!(first, Err(ProtocolError::BadStartupLength { length: 5 }));
    // Nothing was consumed: judging the buffer again gives the same
    // answer.
    assert_eq!(f.decode(), first);
}

#[test]
fn clean_eof_with_empty_buffer() {
    let f = Framed::new();
    assert_eq!(f.on_read_closed(), Ok(None));
}

#[test]
fn flush_resumes_after_cancellation() {
    let mut f = Framed::new();
    // A message whose frame is exactly 10 KiB: 1 tag byte, 4 length
    // bytes, 10235 payload bytes.
    let msg = BeMessage { tag: b'd', body: vec![7u8; 10235] };
    f.write_message(&msg).unwrap();
    let full = f.write_pending().to_vec();
    assert_eq!(full.len(), 10 * 1024);

    // The stream accepts 4 KiB, then the flush future is dropped.
    f.note_written(4096);
    let rest = f.write_pending().to_vec();
    assert_eq!(rest, full[4096..].to_vec());

    // The next flush transmits the remaining 6 KiB and nothing else.
    assert_eq!(rest.len(), 6 * 1024);
    f.note_written(rest.len());
    assert_eq!(f.write_pending().len(), 0);
}

#[test]
fn writes_between_flushes_concatenate_in_order() {
    let mut f = Framed::new();
    let a = BeMessage { tag: b'1', body: vec![0xAA; 5] };
    let b = BeMessage { tag: b'2', body: vec![0xBB; 3] };
    f.write_message(&a).unwrap();
    let first = f.write_pending().to_vec();
    f.note_written(4);
    f.write_message(&b).unwrap();

    let mut a_bytes: Vec<u8> = Vec::new();
    a.write(&mut a_bytes).unwrap();
    let mut b_bytes: Vec<u8> = Vec::new();
    b.write(&mut b_bytes).unwrap();
    assert_eq!(first, a_bytes);

    // Delivered prefix plus what is pending equals the messages in
    // submission order.
    let mut delivered = a_bytes[..4].to_vec();
    delivered.extend_from_slice(f.write_pending());
    let mut expected = a_bytes.clone();
    expected.extend_from_slice(&b_bytes);
    assert_eq!(delivered, expected);
}

#[test]
fn write_zero_is_a_dedicated_error() {
    let f = Framed::new();
    let e = f.write_zero_error();
    assert_eq!(e.kind, IoKind::WriteZero);
    assert_eq!(e.message, "failed to write message");
}

#[test]
fn split_and_unsplit_preserve_buffers_and_mode() {
    let mut f = Framed::new();
    f.feed(&startup_message_frame());
    let m = f.decode().unwrap().unwrap();
    assert!(matches!(m, FeMessage::StartupPacket(FeStartupPacket::StartupMessage { .. })));

    let msg = BeMessage { tag: b'Z', body: vec![1, 2, 3] };
    f.write_message(&msg).unwrap();
    f.feed(&[b'X', 0, 0, 0, 4]);

    let (mut reader, writer) = f.split();
    // The reader kept the read buffer and the typed-frame mode.
    let m = reader.decode().unwrap().unwrap();
    assert_eq!(m, FeMessage::Typed { tag: b'X', body: Vec::new() });

    let mut f = Framed::unsplit(reader, writer);
    // The writer kept the pending encoded message.
    assert_eq!(f.write_pending(), &[b'Z', 0, 0, 0, 7, 1, 2, 3]);
    // Still in typed mode after unsplit.
    f.feed(&[b'Y', 0, 0, 0, 5, 42]);
    let m = f.decode().unwrap().unwrap();
    assert_eq!(m, FeMessage::Typed { tag: b'Y', body: vec![42] });
}

#[test]
fn protocol_error_folds_into_io_error() {
    let e = ConnectionError::Protocol(ProtocolError::OversizedMessage);
    let io = e.into_io_error();
    assert_eq!(io.kind, IoKind::Other);

    let inner = shmempipe::framed::IoFailure { kind: IoKind::WriteZero, message: "x".to_string() };
    let e = ConnectionError::Io(inner.clone());
    assert_eq!(e.into_io_error(), inner);
}

#[test]
fn reader_half_reports_unexpected_eof() {
    let mut f = Framed::new();
    f.feed(&[1, 2, 3]);
    let (reader, _writer) = f.split();
    match reader.on_read_closed() {
        Err(ConnectionError::Io(e)) => assert_eq!(e.kind, IoKind::UnexpectedEof),
        other => panic!("unexpected result: {:?}", other),
    }
}
