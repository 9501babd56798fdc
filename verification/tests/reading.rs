use nsq_wire::{Error, ErrorKind, FrameType, ProtocolReader};

#[test]
fn mod_smoke() {
    let mut b: Vec<u8> = Vec::new();
    b.extend(b"\x00\x00\x00\x06\x00\x00\x00\x00OK");
    b.extend(b"\x00\x00\x00\x06\x00\x00\x00\x00OK");
    b.extend(
        b"\x00\x00\x00\x25\x00\x00\x00\x02\x13\xf1\xb2\xd4\x35\x47\xd1\x52\x00\x0308a1b6139740c001hmmmmmm"
            .iter(),
    );
    b.extend(
        b"\x00\x00\x00\x25\x00\x00\x00\x02\x13\xf1\xb4\x71\x13\x13\x63\x53\x00\x0108a1b6139740c005hmmmmmm"
            .iter(),
    );

    let mut r = ProtocolReader::new();
    r.feed(&b);

    {
        let (frame_type, data) = r.read_frame().unwrap().unwrap();
        assert_eq!(frame_type, FrameType::Response);
        assert_eq!(data, b"OK");
    }

    {
        let (frame_type, data) = r.read_frame().unwrap().unwrap();
        assert_eq!(frame_type, FrameType::Response);
        assert_eq!(data, b"OK");
    }

    {
        let (frame_type, data) = r.read_frame().unwrap().unwrap();
        assert_eq!(frame_type, FrameType::Message);
        assert_eq!(data.len(), 33);
        assert_eq!(&data[0..8], b"\x13\xf1\xb2\xd4\x35\x47\xd1\x52");
        assert_eq!(&data[8..10], b"\x00\x03");
        assert_eq!(&data[10..26], b"08a1b6139740c001");
        assert_eq!(&data[26..26 + 7], b"hmmmmmm");
    }

    {
        let (frame_type, data) = r.read_frame().unwrap().unwrap();
        assert_eq!(frame_type, FrameType::Message);
        assert_eq!(data.len(), 33);
        assert_eq!(&data[0..8], b"\x13\xf1\xb4\x71\x13\x13\x63\x53");
        assert_eq!(&data[8..10], b"\x00\x01");
        assert_eq!(&data[10..26], b"08a1b6139740c005");
        assert_eq!(&data[26..26 + 7], b"hmmmmmm");
    }

    // Nothing further is buffered.
    assert!(r.read_frame().unwrap().is_none());
}

#[test]
fn partial_reads_are_tolerated() {
    let frame: &[u8] = b"\x00\x00\x00\x06\x00\x00\x00\x00OK";
    let mut r = ProtocolReader::new();

    // Fed byte by byte, the frame only appears once whole.
    for i in 0..frame.len() {
        r.feed(&frame[i..i + 1]);
        if i + 1 < frame.len() {
            assert!(r.read_frame().unwrap().is_none());
        }
    }
    let (frame_type, data) = r.read_frame().unwrap().unwrap();
    assert_eq!(frame_type, FrameType::Response);
    assert_eq!(data, b"OK");
    assert!(r.read_frame().unwrap().is_none());
}

#[test]
fn pipelined_frames_come_out_in_order() {
    // Several back-to-back, fully buffered frames, fed at once, come out
    // one at a time, in order.
    let mut b: Vec<u8> = Vec::new();
    b.extend(b"\x00\x00\x00\x05\x00\x00\x00\x00a");
    b.extend(b"\x00\x00\x00\x06\x00\x00\x00\x01bc");
    b.extend(b"\x00\x00\x00\x07\x00\x00\x00\x07def");
    let mut r = ProtocolReader::new();
    r.feed(&b);

    let (t1, d1) = r.read_frame().unwrap().unwrap();
    assert_eq!(t1, FrameType::Response);
    assert_eq!(d1, b"a");
    let (t2, d2) = r.read_frame().unwrap().unwrap();
    assert_eq!(t2, FrameType::Error);
    assert_eq!(d2, b"bc");
    let (t3, d3) = r.read_frame().unwrap().unwrap();
    assert_eq!(t3, FrameType::Unknown(7));
    assert_eq!(d3, b"def");
    assert!(r.read_frame().unwrap().is_none());
}

#[test]
fn empty_payload_frame() {
    // The length field covers only the type field: an empty payload.
    let mut r = ProtocolReader::new();
    r.feed(b"\x00\x00\x00\x04\x00\x00\x00\x00");
    let (frame_type, data) = r.read_frame().unwrap().unwrap();
    assert_eq!(frame_type, FrameType::Response);
    assert_eq!(data, Vec::<u8>::new());
}

#[test]
fn length_field_below_four_is_terminal() {
    let mut r = ProtocolReader::new();
    r.feed(b"\x00\x00\x00\x03\x00\x00\x00\x00");
    match r.read_frame() {
        Err(Error::NsqError(ErrorKind::InvalidFrameLength(n))) => assert_eq!(n, 3),
        _ => panic!("expected InvalidFrameLength"),
    }
}
