use superchan::ReceiverError;
use superchan::WireValue;
use superchan::frame::{frame_len, read_item, write_item};
use superchan::msg::{Message, Response};

#[test]
fn round_trip_blank() {
    let bytes = Message::Blank.encode();
    assert_eq!(Message::decode(&bytes), Some(Message::Blank));
}

#[test]
fn round_trip_int() {
    let bytes = Message::Int(42).encode();
    assert_eq!(Message::decode(&bytes), Some(Message::Int(42)));
}

#[test]
fn round_trip_negative_int() {
    let bytes = Message::Int(-7).encode();
    assert_eq!(Message::decode(&bytes), Some(Message::Int(-7)));
}

#[test]
fn round_trip_extreme_ints() {
    for i in [i32::MIN, i32::MAX, 0, -1] {
        let bytes = Message::Int(i).encode();
        assert_eq!(Message::decode(&bytes), Some(Message::Int(i)));
    }
}

#[test]
fn round_trip_string() {
    let m = Message::String(String::from("hello server"));
    let bytes = m.encode();
    assert_eq!(Message::decode(&bytes), Some(m));
}

#[test]
fn round_trip_empty_string() {
    let m = Message::String(String::new());
    let bytes = m.encode();
    assert_eq!(Message::decode(&bytes), Some(m));
}

#[test]
fn round_trip_multibyte_string() {
    let m = Message::String(String::from("snøfall — 雪"));
    let bytes = m.encode();
    assert_eq!(Message::decode(&bytes), Some(m));
}

#[test]
fn round_trip_responses() {
    for r in [Response::Okay, Response::NotOkay] {
        let bytes = r.encode();
        assert_eq!(Response::decode(&bytes), Some(r));
    }
}

#[test]
fn exact_bytes_blank() {
    assert_eq!(Message::Blank.encode(), vec![0, 0, 0, 0]);
}

#[test]
fn exact_bytes_int() {
    assert_eq!(Message::Int(42).encode(), vec![1, 0, 0, 0, 42, 0, 0, 0]);
}

#[test]
fn exact_bytes_negative_int_two_complement() {
    assert_eq!(Message::Int(-1).encode(), vec![1, 0, 0, 0, 0xff, 0xff, 0xff, 0xff]);
}

#[test]
fn exact_bytes_string() {
    assert_eq!(
        Message::String(String::from("hi")).encode(),
        vec![2, 0, 0, 0, b'h', b'i']
    );
}

#[test]
fn exact_bytes_responses() {
    assert_eq!(Response::Okay.encode(), vec![0, 0, 0, 0]);
    assert_eq!(Response::NotOkay.encode(), vec![1, 0, 0, 0]);
}

#[test]
fn decode_rejects_short_input() {
    assert_eq!(Message::decode(&[]), None);
    assert_eq!(Message::decode(&[0, 0, 0]), None);
}

#[test]
fn decode_rejects_unknown_tag() {
    assert_eq!(Message::decode(&[3, 0, 0, 0]), None);
}

#[test]
fn decode_rejects_trailing_bytes_on_blank() {
    assert_eq!(Message::decode(&[0, 0, 0, 0, 9]), None);
}

#[test]
fn decode_rejects_wrong_int_width() {
    assert_eq!(Message::decode(&[1, 0, 0, 0, 42]), None);
    assert_eq!(Message::decode(&[1, 0, 0, 0, 42, 0, 0, 0, 0]), None);
}

#[test]
fn decode_rejects_invalid_utf8() {
    assert_eq!(Message::decode(&[2, 0, 0, 0, 0xff, 0xfe]), None);
}

#[test]
fn decode_rejects_response_with_wrong_length_or_tag() {
    assert_eq!(Response::decode(&[0, 0, 0]), None);
    assert_eq!(Response::decode(&[0, 0, 0, 0, 0]), None);
    assert_eq!(Response::decode(&[2, 0, 0, 0]), None);
}

#[test]
fn frame_carries_length_then_payload() {
    let frame = write_item(&Message::Int(42)).unwrap();
    assert_eq!(frame, vec![8, 0, 0, 0, 1, 0, 0, 0, 42, 0, 0, 0]);
    assert_eq!(frame_len(&frame[..4]), 8);
}

#[test]
fn frame_of_blank_message() {
    let frame = write_item(&Message::Blank).unwrap();
    assert_eq!(frame, vec![4, 0, 0, 0, 0, 0, 0, 0]);
}

#[test]
fn read_item_decodes_a_written_payload() {
    let frame = write_item(&Message::String(String::from("ping"))).unwrap();
    let payload = &frame[4..];
    let back: Message = read_item(payload).unwrap();
    assert_eq!(back, Message::String(String::from("ping")));
}

#[test]
fn read_item_reports_decoding_error() {
    let r: Result<Response, ReceiverError> = read_item(&[9, 9, 9]);
    assert_eq!(r, Err(ReceiverError::Decoding));
}
