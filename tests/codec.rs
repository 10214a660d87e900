use iroha_network::codec::{DecodeError, Request};
use std::convert::TryFrom;

#[test]
fn request_correctly_built() {
    let request = Request::new("/commands".to_string(), b"some_command".to_vec());
    let bytes: Vec<u8> = request.into();
    assert_eq!(b"/commands\r\nsome_command".to_vec(), bytes)
}

#[test]
fn request_correctly_parsed() {
    let request = Request::new("/commands".to_string(), b"some_command".to_vec());
    assert_eq!(
        Request::try_from(b"/commands\r\nsome_command".to_vec()).unwrap(),
        request
    )
}

#[test]
fn first_newline_splits_once() {
    let request = Request::decode(b"/a\nb\nc").unwrap();
    assert_eq!(request.url(), "/a");
    assert_eq!(request.payload(), b"b\nc");
}

#[test]
fn round_trip_keeps_route_and_payload() {
    let request = Request::new("/ping".to_string(), b"x\r\ny\nz\x00\xff".to_vec());
    let bytes = request.encode();
    assert_eq!(Request::decode(&bytes).unwrap(), request);
}

#[test]
fn round_trip_of_unicode_route_and_empty_payload() {
    let request = Request::new("/größe/日本".to_string(), vec![]);
    let bytes = request.encode();
    assert_eq!(bytes.len(), "/größe/日本".len() + 2);
    assert_eq!(Request::decode(&bytes).unwrap(), request);
}

#[test]
fn bytes_without_newline_have_no_terminator() {
    assert_eq!(Request::decode(b"/commands\rsome_command"), Err(DecodeError::NoTerminator));
    assert_eq!(Request::decode(b""), Err(DecodeError::NoTerminator));
    assert_eq!(Request::decode(b"\r\r\r"), Err(DecodeError::NoTerminator));
}

#[test]
fn route_that_is_not_utf8_is_rejected() {
    assert_eq!(Request::decode(b"/a\xff\r\nbody"), Err(DecodeError::InvalidRoute));
    assert_eq!(Request::try_from(b"\xc3\nbody".to_vec()), Err(DecodeError::InvalidRoute));
}

#[test]
fn newline_at_start_gives_empty_route() {
    let request = Request::decode(b"\nrest").unwrap();
    assert_eq!(request.url(), "");
    assert_eq!(request.payload(), b"rest");
}

#[test]
fn bare_line_feed_ends_route_without_carriage_return() {
    let request = Request::decode(b"/x\npayload").unwrap();
    assert_eq!(request.url(), "/x");
    assert_eq!(request.payload(), b"payload");
}

#[test]
fn only_one_carriage_return_is_stripped() {
    let request = Request::decode(b"/x\r\r\n").unwrap();
    assert_eq!(request.url(), "/x\r");
    assert_eq!(request.payload(), b"");
}

#[test]
fn accessors_return_fields() {
    let request = Request::new("/commands".to_string(), vec![1, 2, 3]);
    assert_eq!(request.url(), "/commands");
    assert_eq!(request.payload(), &[1u8, 2, 3][..]);
}

#[test]
fn try_from_without_newline_has_no_terminator() {
    assert_eq!(Request::try_from(b"/commands\r".to_vec()), Err(DecodeError::NoTerminator));
    assert_eq!(Request::try_from(Vec::new()), Err(DecodeError::NoTerminator));
}

#[test]
fn try_from_splits_at_first_newline() {
    assert_eq!(
        Request::try_from(b"/a\nb\nc".to_vec()).unwrap(),
        Request::new("/a".to_string(), b"b\nc".to_vec())
    );
    assert_eq!(
        Request::try_from(b"\nabc".to_vec()).unwrap(),
        Request::new(String::new(), b"abc".to_vec())
    );
    assert_eq!(Request::try_from(vec![0xFFu8, 0x0D, 0x0A, 0x61]), Err(DecodeError::InvalidRoute));
}

#[test]
fn from_writes_payload_unescaped_and_round_trips() {
    let request = Request::new("/r".to_string(), b"\r\n\n".to_vec());
    let bytes: Vec<u8> = request.clone().into();
    assert_eq!(bytes, b"/r\r\n\r\n\n".to_vec());
    assert_eq!(Request::try_from(bytes).unwrap(), request);
}
