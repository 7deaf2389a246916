use ddns_sandbox::decode::{decode_command, decode_response};
use ddns_sandbox::wire::{
    command_payload, encode_command, encode_response, response_payload, Request, Response,
    WasmCommand, WireError,
};

#[test]
fn shutdown_frame_is_length_then_tag() {
    let frame = encode_command(&WasmCommand::Shutdown);
    assert_eq!(frame, vec![4, 0, 0, 0, 0, 0, 0, 0, 0, 0, 0, 0]);
}

#[test]
fn request_payload_layout() {
    let cmd = WasmCommand::Request(Request {
        id: 0x0102030405060708,
        module: String::from("/m"),
        data: vec![9, 8, 7],
    });
    let payload = command_payload(&cmd);
    let expected: Vec<u8> = vec![
        1, 0, 0, 0, // tag
        8, 7, 6, 5, 4, 3, 2, 1, // id
        2, 0, 0, 0, 0, 0, 0, 0, b'/', b'm', // module
        3, 0, 0, 0, 0, 0, 0, 0, 9, 8, 7, // data
    ];
    assert_eq!(payload, expected);
    assert_eq!(decode_command(&payload), Ok(cmd));
}

#[test]
fn response_round_trip_ok_and_err() {
    let ok = Response { id: 7, response: Ok(vec![1, 2, 3]) };
    assert_eq!(decode_response(&response_payload(&ok)), Ok(ok));
    let err = Response { id: u64::MAX, response: Err(String::from("bad \u{e9}")) };
    assert_eq!(decode_response(&response_payload(&err)), Ok(err));
}

#[test]
fn response_frame_matches_bincode() {
    let config = bincode::config::standard().with_fixed_int_encoding();
    let value: (u64, Result<Vec<u8>, String>) = (42, Ok(vec![0xff, 0, 1]));
    let theirs = bincode::encode_to_vec(&value, config).unwrap();
    let ours = response_payload(&Response { id: 42, response: Ok(vec![0xff, 0, 1]) });
    assert_eq!(ours, theirs);
    let value: (u64, Result<Vec<u8>, String>) = (1, Err(String::from("no")));
    let theirs = bincode::encode_to_vec(&value, config).unwrap();
    let ours = response_payload(&Response { id: 1, response: Err(String::from("no")) });
    assert_eq!(ours, theirs);
    let framed = encode_response(&Response { id: 1, response: Err(String::from("no")) });
    assert_eq!(&framed[..8], &(theirs.len() as u64).to_le_bytes());
    assert_eq!(&framed[8..], &theirs[..]);
}

#[test]
fn decode_rejects_bad_payloads() {
    assert_eq!(decode_command(&[]), Err(WireError::Truncated));
    assert_eq!(decode_command(&[2, 0, 0, 0]), Err(WireError::UnknownVariant));
    assert_eq!(decode_command(&[1, 0, 0, 0, 1, 2]), Err(WireError::Truncated));
    let mut bad = response_payload(&Response { id: 1, response: Err(String::from("ab")) });
    let last = bad.len() - 1;
    bad[last] = 0xff;
    assert_eq!(decode_response(&bad), Err(WireError::InvalidUtf8));
}

#[test]
fn command_payload_matches_bincode() {
    let config = bincode::config::standard().with_fixed_int_encoding();
    let data: &[u8] = &[1, 2, 250];
    let theirs = bincode::encode_to_vec((1u32, 7u64, "/opt/m\u{f6}d.wasm", data), config).unwrap();
    let ours = command_payload(&WasmCommand::Request(Request {
        id: 7,
        module: String::from("/opt/m\u{f6}d.wasm"),
        data: data.to_vec(),
    }));
    assert_eq!(ours, theirs);
    let theirs = bincode::encode_to_vec(0u32, config).unwrap();
    assert_eq!(command_payload(&WasmCommand::Shutdown), theirs);
}

#[test]
fn bincode_reads_what_we_write_and_we_read_bincode() {
    let config = bincode::config::standard().with_fixed_int_encoding();
    let ours = response_payload(&Response { id: 9, response: Err(String::from("tr\u{e8}s mal")) });
    let (theirs, used): ((u64, Result<Vec<u8>, String>), usize) =
        bincode::decode_from_slice(&ours, config).unwrap();
    assert_eq!(used, ours.len());
    assert_eq!(theirs, (9, Err(String::from("tr\u{e8}s mal"))));
    let value: (u32, u64, String, Vec<u8>) = (1, u64::MAX, String::from("/x"), vec![0; 70]);
    let bytes = bincode::encode_to_vec(&value, config).unwrap();
    assert_eq!(
        decode_command(&bytes),
        Ok(WasmCommand::Request(Request { id: u64::MAX, module: String::from("/x"), data: vec![0; 70] }))
    );
}
