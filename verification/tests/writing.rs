use nsq_wire::protocol::writing::{
    write_auth, write_cls, write_fin, write_identify, write_magic, write_mpub, write_nop,
    write_pub, write_rdy, write_req, write_sub, write_touch,
};
use nsq_wire::Identification;

#[test]
fn smoke() {
    let mut b: Vec<u8> = Vec::new();

    b.extend(write_magic());
    let i = Identification::builder().build();
    b.extend(write_identify(&i).unwrap());
    b.extend(write_sub("topicname", "channelname"));
    b.extend(write_pub("othertopicname", "{\"foo\":\"bar\"}".as_bytes()));
    b.extend(write_rdy(2));

    let mut i = 0;
    assert_eq!(&b[i..i + 4], b"  V2");
    i += 4;
    assert_eq!(&b[i..i + 13], b"IDENTIFY\n\x00\x00\x00\x1C");
    i += 13;
    assert_eq!(&b[i..i + 28], b"{\"feature_negotiation\":true}");
    i += 28;
    assert_eq!(&b[i..i + 26], b"SUB topicname channelname\n");
    i += 26;
    assert_eq!(&b[i..i + 19], b"PUB othertopicname\n");
    i += 19;
    assert_eq!(&b[i..i + 17], b"\x00\x00\x00\x0D{\"foo\":\"bar\"}");
    i += 17;
    assert_eq!(&b[i..i + 6], b"RDY 2\n");
    i += 6;
    assert_eq!(i, 4 + 13 + 28 + 26 + 19 + 17 + 6);
    assert_eq!(b.len(), i);
}

#[test]
fn identify_includes_only_set_fields() {
    let i = Identification::builder()
        .client_id("consumer-1")
        .hostname("box.example")
        .build();
    let bytes = write_identify(&i).unwrap();
    let expected =
        b"IDENTIFY\n\x00\x00\x00\x4e{\"client_id\":\"consumer-1\",\"feature_negotiation\":true,\"hostname\":\"box.example\"}";
    assert_eq!(bytes, expected.to_vec());

    let i = Identification::builder().client_id("c").build();
    let bytes = write_identify(&i).unwrap();
    assert_eq!(
        bytes,
        b"IDENTIFY\n\x00\x00\x00\x2c{\"client_id\":\"c\",\"feature_negotiation\":true}".to_vec()
    );
}

#[test]
fn identify_escapes_the_client_id() {
    // A quote and a backslash in the client identifier must come out
    // JSON-escaped, not pasted raw.
    let i = Identification::builder().client_id("a\"b\\c").build();
    let bytes = write_identify(&i).unwrap();
    let body = &bytes[13..];
    assert_eq!(
        body,
        b"{\"client_id\":\"a\\\"b\\\\c\",\"feature_negotiation\":true}"
    );
}

#[test]
fn command_lines_are_exact() {
    assert_eq!(write_fin(b"08a1b6139740c001"), b"FIN 08a1b6139740c001\n".to_vec());
    assert_eq!(
        write_req("08a1b6139740c001", 1500),
        b"REQ 08a1b6139740c001 1500\n".to_vec()
    );
    assert_eq!(
        write_touch("08a1b6139740c001"),
        b"TOUCH 08a1b6139740c001\n".to_vec()
    );
    assert_eq!(write_cls(), b"CLS\n".to_vec());
    assert_eq!(write_nop(), b"NOP\n".to_vec());
    assert_eq!(write_rdy(0), b"RDY 0\n".to_vec());
    assert_eq!(write_rdy(4294967295), b"RDY 4294967295\n".to_vec());
}

#[test]
fn auth_is_length_prefixed() {
    assert_eq!(
        write_auth(b"opensesame"),
        b"AUTH\n\x00\x00\x00\x0aopensesame".to_vec()
    );
    assert_eq!(write_auth(b""), b"AUTH\n\x00\x00\x00\x00".to_vec());
}

#[test]
fn mpub_encodes_nothing() {
    let messages: Vec<Vec<u8>> = vec![b"one".to_vec(), b"two".to_vec()];
    assert_eq!(write_mpub("topicname", &messages), Vec::<u8>::new());
}
