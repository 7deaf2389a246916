use ddns_sandbox::handshake::{
    find_nul, handshake_length, handshake_message, handshake_name, is_decimal, parse_handshake,
    HandshakeError,
};

#[test]
fn message_is_digits_nul_name() {
    assert_eq!(handshake_message(b"/tmp/x"), b"6\0/tmp/x".to_vec());
    assert_eq!(handshake_message(b""), b"0\0".to_vec());
    let long = vec![b'a'; 1234];
    let msg = handshake_message(&long);
    assert_eq!(&msg[..5], b"1234\0");
    assert_eq!(&msg[5..], &long[..]);
}

#[test]
fn host_reads_what_runtime_wrote() {
    for name in ["/tmp/.tmpAbC123", "\\\\.\\pipe\\5c2f", "", "/tmp/\u{e9}t\u{e9}"] {
        let msg = handshake_message(name.as_bytes());
        assert_eq!(parse_handshake(&msg), Ok(String::from(name)));
    }
}

#[test]
fn bytes_behind_the_name_are_ignored() {
    let mut msg = handshake_message(b"/run/sock");
    msg.extend_from_slice(b"more output");
    assert_eq!(parse_handshake(&msg), Ok(String::from("/run/sock")));
}

#[test]
fn garbage_is_no_handshake() {
    assert_eq!(parse_handshake(b""), Err(HandshakeError::MissingTerminator));
    assert_eq!(parse_handshake(b"hello world"), Err(HandshakeError::MissingTerminator));
    assert_eq!(parse_handshake(b"12"), Err(HandshakeError::MissingTerminator));
    assert_eq!(parse_handshake(b"abc\0abc"), Err(HandshakeError::InvalidLength));
    assert_eq!(parse_handshake(b"\0abc"), Err(HandshakeError::InvalidLength));
    assert_eq!(parse_handshake(b"5\0ab"), Err(HandshakeError::IncorrectLength));
    assert_eq!(parse_handshake(b"2\0\xff\xfe"), Err(HandshakeError::InvalidUtf8));
    assert_eq!(
        parse_handshake(b"18446744073709551616\0x"),
        Err(HandshakeError::InvalidLength)
    );
    assert_eq!(
        parse_handshake(b"18446744073709551615\0x"),
        Err(HandshakeError::IncorrectLength)
    );
}

#[test]
fn length_field_is_decimal_digits_and_nothing_else() {
    assert_eq!(handshake_length(b"42\0"), Ok(42));
    assert_eq!(handshake_length(b"0\0"), Ok(0));
    assert_eq!(handshake_length(b"0042\0"), Ok(42));
    assert_eq!(handshake_length(b"18446744073709551615\0"), Ok(u64::MAX as usize));
    for header in [
        &b"+7\0"[..],
        b"-0\0",
        b"+\0",
        b"-\0",
        b"-1\0",
        b"5x\0",
        b"7 and more\0",
        b" 7\0",
        b"7 \0",
        b"x1\0",
        b"0x10\0",
        b"1.5\0",
        b"\xd9\xa5\0",
        b"\0",
        b"18446744073709551616\0",
        b"99999999999999999999999\0",
    ] {
        assert_eq!(handshake_length(header), Err(HandshakeError::InvalidLength), "{header:?}");
    }
    assert_eq!(handshake_length(b"42"), Err(HandshakeError::MissingTerminator));
    assert_eq!(handshake_length(b""), Err(HandshakeError::MissingTerminator));
}

#[test]
fn decimal_fields_are_told_apart() {
    assert!(is_decimal(b"0"));
    assert!(is_decimal(b"0123456789"));
    assert!(!is_decimal(b""));
    assert!(!is_decimal(b"+1"));
    assert!(!is_decimal(b"12a"));
    assert!(!is_decimal(b"a12"));
    assert!(!is_decimal(b"1 2"));
    assert!(!is_decimal(b"/"));
    assert!(!is_decimal(b":"));
}

#[test]
fn handshake_with_more_than_digits_is_refused() {
    assert_eq!(parse_handshake(b"5x\0hello"), Err(HandshakeError::InvalidLength));
    assert_eq!(parse_handshake(b"+5\0hello"), Err(HandshakeError::InvalidLength));
    assert_eq!(parse_handshake(b"+\0"), Err(HandshakeError::InvalidLength));
    assert_eq!(parse_handshake(b"-\0"), Err(HandshakeError::InvalidLength));
    assert_eq!(parse_handshake(b"5 \0hello"), Err(HandshakeError::InvalidLength));
    assert_eq!(parse_handshake(b"5\0hello"), Ok(String::from("hello")));
    assert_eq!(parse_handshake(b"005\0hello"), Ok(String::from("hello")));
}

#[test]
fn name_must_have_the_announced_length() {
    assert_eq!(handshake_name(b"abc".to_vec(), 3), Ok(String::from("abc")));
    assert_eq!(handshake_name(b"ab".to_vec(), 3), Err(HandshakeError::IncorrectLength));
    assert_eq!(handshake_name(vec![0xc3], 1), Err(HandshakeError::InvalidUtf8));
}

#[test]
fn first_nul_is_found() {
    assert_eq!(find_nul(b"ab\0cd\0"), 2);
    assert_eq!(find_nul(b"abc"), 3);
    assert_eq!(find_nul(b""), 0);
}
