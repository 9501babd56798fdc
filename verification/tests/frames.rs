use nsq_wire::frames::decode_frame;
use nsq_wire::{
    Error, ErrorFrame, ErrorKind, Frame, FrameType, MessageFrame, ProtocolReader, ResponseFrame,
    StringOrByteVec,
};

#[test]
fn response_sentinels() {
    assert_eq!(
        ResponseFrame::from_vec(b"_heartbeat_".to_vec()),
        ResponseFrame::Heartbeat
    );
    assert_eq!(ResponseFrame::from_vec(b"OK".to_vec()), ResponseFrame::Okay);
    assert_eq!(
        ResponseFrame::from_vec(b"CLOSE_WAIT".to_vec()),
        ResponseFrame::CloseWait
    );
    assert_eq!(
        ResponseFrame::from_vec(b"something else".to_vec()),
        ResponseFrame::Data(StringOrByteVec::Text("something else".to_string()))
    );
    // A near miss is data, not a sentinel.
    assert_eq!(
        ResponseFrame::from_vec(b"OK ".to_vec()),
        ResponseFrame::Data(StringOrByteVec::Text("OK ".to_string()))
    );
}

#[test]
fn response_data_preserves_raw_bytes() {
    // 0xFF 0xFE is not UTF-8, so the payload falls back to raw bytes,
    // losslessly.
    let raw = vec![0xFFu8, 0xFE, 0x00];
    match ResponseFrame::from_vec(raw.clone()) {
        ResponseFrame::Data(d) => {
            assert_eq!(d, StringOrByteVec::Bytes(raw.clone()));
            assert_eq!(d.into_bytes(), raw);
        }
        other => panic!("expected data, got {:?}", other),
    }
}

#[test]
fn payload_text_round_trips() {
    let text = StringOrByteVec::from_vec("héllo".as_bytes().to_vec());
    assert_eq!(text, StringOrByteVec::Text("héllo".to_string()));
    assert_eq!(text.into_bytes(), "héllo".as_bytes().to_vec());

    let bad = vec![0xC3u8, 0x28];
    let binary = StringOrByteVec::from_vec(bad.clone());
    assert_eq!(binary, StringOrByteVec::Bytes(bad.clone()));
    assert_eq!(binary.into_bytes(), bad);
}

#[test]
fn error_frame_codes() {
    assert_eq!(
        ErrorFrame::from_vec(b"E_INVALID cannot SUB in current state".to_vec()),
        ErrorFrame::Invalid(Some(StringOrByteVec::Text(
            "cannot SUB in current state".to_string()
        )))
    );
    assert_eq!(
        ErrorFrame::from_vec(b"E_INVALID".to_vec()),
        ErrorFrame::Invalid(None)
    );
    assert_eq!(
        ErrorFrame::from_vec(b"E_BAD_BODY".to_vec()),
        ErrorFrame::BadBody(None)
    );
    assert_eq!(
        ErrorFrame::from_vec(b"E_BAD_TOPIC".to_vec()),
        ErrorFrame::BadTopic(None)
    );
    // The code set is open: anything unmatched lands in Unknown with its
    // exact payload.
    assert_eq!(
        ErrorFrame::from_vec(b"E_BAD_CHANNEL".to_vec()),
        ErrorFrame::Unknown(StringOrByteVec::Text("E_BAD_CHANNEL".to_string()))
    );
    assert_eq!(
        ErrorFrame::from_vec(b"E_X".to_vec()),
        ErrorFrame::Unknown(StringOrByteVec::Text("E_X".to_string()))
    );
}

#[test]
fn short_message_payload_is_invalid() {
    // 25 bytes is one short of the fixed 26-byte header.
    let payload = vec![0u8; 25];
    assert!(matches!(
        MessageFrame::from_vec(payload),
        Err(Error::NsqError(ErrorKind::InvalidMessageFrame))
    ));
    assert!(matches!(
        MessageFrame::from_vec(Vec::new()),
        Err(Error::NsqError(ErrorKind::InvalidMessageFrame))
    ));
}

#[test]
fn message_payload_with_bad_id_is_invalid() {
    let mut payload = vec![0u8; 10];
    payload.extend(b"zz34567890abcdef");
    payload.extend(b"body");
    match MessageFrame::from_vec(payload) {
        Err(Error::NsqError(ErrorKind::InvalidMessageId(bad))) => {
            assert_eq!(bad, b"zz".to_vec());
        }
        other => panic!("expected InvalidMessageId, got {:?}", other),
    }
}

#[test]
fn scenario_response_ok() {
    // Scenario: 00 00 00 06 00 00 00 00 "OK" is one response frame "OK".
    let mut r = ProtocolReader::new();
    r.feed(b"\x00\x00\x00\x06\x00\x00\x00\x00OK");
    let (frame_type, data) = r.read_frame().unwrap().unwrap();
    assert_eq!(frame_type, FrameType::Response);
    assert_eq!(data, b"OK");
    let frame = decode_frame(frame_type, data).unwrap();
    assert_eq!(frame, Frame::ResponseFrame(ResponseFrame::Okay));
}

#[test]
fn scenario_message_frame() {
    // Scenario: a full message frame with timestamp, attempts 3, a hex
    // identifier, and the body "hmmmmmm".
    let mut r = ProtocolReader::new();
    r.feed(
        b"\x00\x00\x00\x25\x00\x00\x00\x02\x13\xf1\xb2\xd4\x35\x47\xd1\x52\x00\x0308a1b6139740c001hmmmmmm",
    );
    let (frame_type, data) = r.read_frame().unwrap().unwrap();
    assert_eq!(frame_type, FrameType::Message);
    let frame = decode_frame(frame_type, data).unwrap();
    match frame {
        Frame::MessageFrame(m) => {
            assert_eq!(m.timestamp, 0x13f1b2d43547d152);
            assert_eq!(m.attempts, 3);
            assert_eq!(m.message_id.to_hex_bytes(), b"08a1b6139740c001".to_vec());
            assert_eq!(m.message_id.as_u64(), 0x08a1b6139740c001);
            assert_eq!(
                m.message,
                StringOrByteVec::Text("hmmmmmm".to_string())
            );
        }
        other => panic!("expected a message frame, got {:?}", other),
    }
}

#[test]
fn negative_timestamp_is_kept_signed() {
    let mut payload: Vec<u8> = Vec::new();
    payload.extend(b"\xff\xff\xff\xff\xff\xff\xff\xff"); // -1
    payload.extend(b"\x00\x00");
    payload.extend(b"0000000000000000");
    let m = MessageFrame::from_vec(payload).unwrap();
    assert_eq!(m.timestamp, -1);
    assert_eq!(m.attempts, 0);
    assert_eq!(m.message.into_bytes(), Vec::<u8>::new());
}

#[test]
fn unknown_frame_type_is_rejected() {
    let r = decode_frame(FrameType::Unknown(9), b"whatever".to_vec());
    match r {
        Err(Error::NsqError(ErrorKind::UnknownFrameType(code))) => assert_eq!(code, 9),
        other => panic!("expected UnknownFrameType, got {:?}", other),
    }
}

#[test]
fn error_frame_type_decodes_error_payload() {
    let frame = decode_frame(FrameType::Error, b"E_INVALID".to_vec()).unwrap();
    assert_eq!(frame, Frame::ErrorFrame(ErrorFrame::Invalid(None)));
}
