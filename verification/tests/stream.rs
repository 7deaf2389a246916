use ddns_sandbox::stream::{frame_length, get_request, read_command, read_response, split_frame};
use ddns_sandbox::wire::{
    encode_command, encode_response, frame, Request, Response, WasmCommand, WireError,
};

#[test]
fn empty_stream_is_closed_not_broken() {
    assert_eq!(read_response(&[]), Ok(None));
    assert_eq!(read_command(&[]), Ok(None));
    assert_eq!(get_request(&[]), Ok(None));
    assert_eq!(split_frame(&[]), Ok(None));
    assert_eq!(frame_length(&[]), Ok(None));
}

#[test]
fn partial_length_prefix_is_a_protocol_error() {
    for have in 1..8usize {
        let bytes = vec![0u8; have];
        assert_eq!(frame_length(&bytes), Err(WireError::Truncated));
        assert_eq!(read_response(&bytes), Err(WireError::Truncated));
        assert_eq!(get_request(&bytes), Err(WireError::Truncated));
    }
}

#[test]
fn frame_length_is_little_endian() {
    assert_eq!(frame_length(&[1, 2, 0, 0, 0, 0, 0, 0]), Ok(Some(513)));
    assert_eq!(frame_length(&[0, 0, 0, 0, 0, 0, 0, 0, 9, 9]), Ok(Some(0)));
}

#[test]
fn body_shorter_than_announced_is_a_protocol_error() {
    let mut bytes = frame(&[1, 2, 3, 4]);
    bytes.pop();
    assert_eq!(split_frame(&bytes), Err(WireError::Truncated));
    assert_eq!(read_response(&bytes), Err(WireError::Truncated));
    let huge = [0xff, 0xff, 0xff, 0xff, 0xff, 0xff, 0xff, 0xff, 1];
    assert_eq!(split_frame(&huge), Err(WireError::Truncated));
}

#[test]
fn frames_are_read_one_after_the_other() {
    let first = Response { id: 3, response: Ok(vec![1, 2]) };
    let second = Response { id: 4, response: Err(String::from("guest failed")) };
    let mut stream = encode_response(&first);
    let first_len = stream.len();
    stream.extend_from_slice(&encode_response(&second));
    let (got, used) = read_response(&stream).unwrap().unwrap();
    assert_eq!(got, first);
    assert_eq!(used, first_len);
    let (got, used) = read_response(&stream[used..]).unwrap().unwrap();
    assert_eq!(got, second);
    assert_eq!(used, stream.len() - first_len);
    assert_eq!(read_response(&stream[stream.len()..]), Ok(None));
}

#[test]
fn shutdown_ends_the_requests() {
    let stream = encode_command(&WasmCommand::Shutdown);
    assert_eq!(read_command(&stream), Ok(Some((WasmCommand::Shutdown, 12))));
    assert_eq!(get_request(&stream), Ok(None));
}

#[test]
fn request_is_read_back_with_trailing_bytes() {
    let request = Request { id: 99, module: String::from("/opt/mod.wasm"), data: vec![7; 300] };
    let mut stream = encode_command(&WasmCommand::Request(Request {
        id: 99,
        module: String::from("/opt/mod.wasm"),
        data: vec![7; 300],
    }));
    let len = stream.len();
    stream.extend_from_slice(&[1, 2, 3]);
    assert_eq!(get_request(&stream), Ok(Some((request, len))));
}

#[test]
fn undecodable_payload_is_a_protocol_error() {
    assert_eq!(read_response(&frame(&[1, 2, 3])), Err(WireError::Truncated));
    assert_eq!(read_command(&frame(&[9, 0, 0, 0])), Err(WireError::UnknownVariant));
    let payload = [0, 0, 0, 0, 0, 0, 0, 0, 7, 0, 0, 0];
    assert_eq!(read_response(&frame(&payload)), Err(WireError::UnknownVariant));
}
