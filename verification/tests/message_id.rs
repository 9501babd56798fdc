use nsq_wire::{Error, ErrorKind, MessageId};

#[test]
fn message_smoke() {
    let m = MessageId::from_hex_bytes("anobviouslyinvalidmessageid".as_bytes());
    assert!(m.is_err());

    let m = MessageId::from_hex_bytes("0000000000000000".as_bytes()).unwrap();

    assert_eq!(m.as_u64(), 0);
    assert_eq!(m.to_hex_bytes(), "0000000000000000".as_bytes());

    let m = MessageId::from_hex_bytes("1234567890abcdef".as_bytes()).unwrap();

    assert_eq!(m.as_u64(), 0x1234567890abcdef);
    assert_eq!(
        String::from_utf8(m.to_hex_bytes()).unwrap(),
        "1234567890abcdef"
    );
}

#[test]
fn hex_round_trips_extremes() {
    let m = MessageId::from_hex_bytes(b"ffffffffffffffff").unwrap();
    assert_eq!(m.as_u64(), u64::MAX);
    assert_eq!(m.to_hex_bytes(), b"ffffffffffffffff".to_vec());

    let m = MessageId::from_hex_bytes(b"08a1b6139740c001").unwrap();
    assert_eq!(m.as_u64(), 0x08a1b6139740c001);
    assert_eq!(m.to_hex_bytes(), b"08a1b6139740c001".to_vec());
}

#[test]
fn hex_read_is_case_insensitive_write_is_lowercase() {
    let upper = MessageId::from_hex_bytes(b"ABCDEF0123456789").unwrap();
    let lower = MessageId::from_hex_bytes(b"abcdef0123456789").unwrap();
    assert_eq!(upper.as_u64(), lower.as_u64());
    assert_eq!(upper.to_hex_bytes(), b"abcdef0123456789".to_vec());
    assert_eq!(upper.to_hex_bytes().len(), 16);
}

#[test]
fn decode_rejects_wrong_length() {
    let short = MessageId::from_hex_bytes(b"123456789abcdef");
    match short {
        Err(Error::NsqError(ErrorKind::InvalidMessageId(bad))) => {
            assert_eq!(bad, b"123456789abcdef".to_vec());
        }
        _ => panic!("expected InvalidMessageId"),
    }

    let long = MessageId::from_hex_bytes(b"123456789abcdef01");
    assert!(matches!(
        long,
        Err(Error::NsqError(ErrorKind::InvalidMessageId(_)))
    ));

    let empty = MessageId::from_hex_bytes(b"");
    assert!(matches!(
        empty,
        Err(Error::NsqError(ErrorKind::InvalidMessageId(_)))
    ));
}

#[test]
fn decode_rejects_non_hex_byte() {
    // Length is 16, but the chunk "g0" holds a non-hex byte; the error
    // carries that first offending two-digit chunk.
    let r = MessageId::from_hex_bytes(b"1234g01234567890");
    match r {
        Err(Error::NsqError(ErrorKind::InvalidMessageId(bad))) => {
            assert_eq!(bad, b"g0".to_vec());
        }
        _ => panic!("expected InvalidMessageId"),
    }
}
