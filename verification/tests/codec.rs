use fifo_ipc::codec::{decode, encode};
use fifo_ipc::frame::{encode_frame, frame_header_len, read_framed};
use fifo_ipc::fifo::{identifier_bytes, identifier_from_bytes};
use fifo_ipc::{Error, Message};

#[test]
fn round_trip_print_hello() {
    let m = Message::Print("hello".to_string());
    let bytes = encode(&m);
    assert_eq!(decode(&bytes).unwrap(), m);
}

#[test]
fn round_trip_print_empty() {
    let m = Message::Print(String::new());
    let bytes = encode(&m);
    assert_eq!(bytes.len(), 12);
    assert_eq!(decode(&bytes).unwrap(), m);
}

#[test]
fn round_trip_print_multibyte() {
    // Characters whose UTF-8 takes two, three and four bytes: a decode
    // that handed the raw bytes through unchanged could not win here.
    let m = Message::Print("p\u{e9}p\u{2713}\u{1f600}".to_string());
    let bytes = encode(&m);
    assert_eq!(decode(&bytes).unwrap(), m);
}

#[test]
fn round_trip_ack() {
    let m = Message::Ack();
    let bytes = encode(&m);
    assert_eq!(bytes.len(), 4);
    assert_eq!(decode(&bytes).unwrap(), m);
}

#[test]
fn exact_encoding_of_print_hello() {
    let bytes = encode(&Message::Print("hello".to_string()));
    let expected = [
        0u8, 0, 0, 0, // tag of Print
        5, 0, 0, 0, 0, 0, 0, 0, // payload byte count
        b'h', b'e', b'l', b'l', b'o',
    ];
    assert_eq!(bytes, expected.to_vec());
}

#[test]
fn exact_encoding_of_ack() {
    assert_eq!(encode(&Message::Ack()), vec![1u8, 0, 0, 0]);
}

#[test]
fn decode_rejects_empty_and_short_input() {
    assert_eq!(decode(&[]), Err(Error::DecodeError));
    assert_eq!(decode(&[1, 0, 0]), Err(Error::DecodeError));
    assert_eq!(decode(&[0, 0, 0, 0, 5, 0, 0]), Err(Error::DecodeError));
}

#[test]
fn decode_rejects_unknown_tag() {
    assert_eq!(decode(&[2, 0, 0, 0]), Err(Error::DecodeError));
    assert_eq!(decode(&[255, 255, 255, 255]), Err(Error::DecodeError));
}

#[test]
fn decode_rejects_trailing_bytes_after_ack() {
    assert_eq!(decode(&[1, 0, 0, 0, 0]), Err(Error::DecodeError));
}

#[test]
fn decode_rejects_length_field_mismatch() {
    // The length field says 4, but 5 payload bytes follow.
    let mut bytes = vec![0u8, 0, 0, 0, 4, 0, 0, 0, 0, 0, 0, 0];
    bytes.extend_from_slice(b"hello");
    assert_eq!(decode(&bytes), Err(Error::DecodeError));
}

#[test]
fn decode_rejects_invalid_utf8() {
    let bytes = vec![0u8, 0, 0, 0, 2, 0, 0, 0, 0, 0, 0, 0, 0xff, 0xfe];
    assert_eq!(decode(&bytes), Err(Error::DecodeError));
}

#[test]
fn exact_frame_of_print_hello() {
    let frame = encode_frame(&Message::Print("hello".to_string()));
    let mut expected = vec![17u8, 0, 0, 0, 0, 0, 0, 0];
    expected.extend_from_slice(&[0, 0, 0, 0, 5, 0, 0, 0, 0, 0, 0, 0]);
    expected.extend_from_slice(b"hello");
    assert_eq!(frame, expected);
    assert_eq!(frame_header_len(&frame[0..8]), 17);
}

#[test]
fn read_framed_exact_output_round_trips() {
    let m = Message::Print("hello".to_string());
    let frame = encode_frame(&m);
    let (back, used) = read_framed(&frame).unwrap();
    assert_eq!(back, m);
    assert_eq!(used, frame.len());
}

#[test]
fn read_framed_leaves_trailing_byte_unread() {
    let m = Message::Print("hello".to_string());
    let mut stream = encode_frame(&m);
    let frame_len = stream.len();
    stream.push(0xAB);
    let (back, used) = read_framed(&stream).unwrap();
    assert_eq!(back, m);
    assert_eq!(used, frame_len);
}

#[test]
fn read_framed_truncated_frame_is_io_error() {
    let m = Message::Print("hello".to_string());
    let mut stream = encode_frame(&m);
    stream.pop();
    assert_eq!(read_framed(&stream), Err(Error::IoError));
}

#[test]
fn read_framed_short_header_is_io_error() {
    assert_eq!(read_framed(&[]), Err(Error::IoError));
    assert_eq!(read_framed(&[17, 0, 0, 0, 0, 0, 0]), Err(Error::IoError));
}

#[test]
fn read_framed_garbage_payload_is_decode_error() {
    // A complete frame whose payload encodes no known message.
    let stream = vec![4u8, 0, 0, 0, 0, 0, 0, 0, 9, 9, 9, 9];
    assert_eq!(read_framed(&stream), Err(Error::DecodeError));
}

#[test]
fn identifier_bytes_round_trip() {
    let bytes = identifier_bytes(0x01020304);
    assert_eq!(bytes, vec![4u8, 3, 2, 1]);
    assert_eq!(identifier_from_bytes(&bytes), 0x01020304);
    let zero = identifier_bytes(0);
    assert_eq!(identifier_from_bytes(&zero), 0);
    let max = identifier_bytes(u32::MAX);
    assert_eq!(identifier_from_bytes(&max), u32::MAX);
}

#[test]
fn message_equality_follows_content() {
    assert_eq!(Message::Ack(), Message::Ack());
    assert_eq!(
        Message::Print("a".to_string()),
        Message::Print("a".to_string())
    );
    assert_ne!(Message::Print("a".to_string()), Message::Print("b".to_string()));
    assert_ne!(Message::Print(String::new()), Message::Ack());
}
