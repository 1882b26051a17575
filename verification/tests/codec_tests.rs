use mlservant::codec::{decode_reply, encode_request};
use mlservant::errors::DispatchError;
use mlservant::message::Message;

#[test]
fn encode_request_three_frames() {
    let m = Message::new(vec![("image".to_string(), vec![1u8, 2, 3])]);
    let req = encode_request(&m, "Hello");
    assert_eq!(req.response_frame, b"Hello".to_vec());
    assert_eq!(
        req.metadata_frame,
        br#"{"metadata":"Hello","response":"Hello"}"#.to_vec()
    );
    assert_eq!(req.payload_frame, br#"{"image":[1,2,3]}"#.to_vec());
}

#[test]
fn encode_request_empty_payload() {
    let m = Message::new(Vec::new());
    let req = encode_request(&m, "Hello");
    assert_eq!(req.payload_frame, b"{}".to_vec());
}

#[test]
fn decode_string_field() {
    let m = decode_reply(br#"{"label":"cat"}"#).unwrap();
    assert_eq!(m.get(&"label".to_string()), Some(&b"cat".to_vec()));
}

#[test]
fn decode_number_field() {
    let m = decode_reply(br#"{"score":42,"p":2.5,"n":-7}"#).unwrap();
    assert_eq!(m.get(&"score".to_string()), Some(&b"42".to_vec()));
    assert_eq!(m.get(&"p".to_string()), Some(&b"2.5".to_vec()));
    assert_eq!(m.get(&"n".to_string()), Some(&b"-7".to_vec()));
}

#[test]
fn decode_bool_field() {
    let m = decode_reply(br#"{"yes":true,"no":false}"#).unwrap();
    assert_eq!(m.get(&"yes".to_string()), Some(&b"true".to_vec()));
    assert_eq!(m.get(&"no".to_string()), Some(&b"false".to_vec()));
}

#[test]
fn decode_null_field_is_empty_bytes() {
    let m = decode_reply(br#"{"nothing":null}"#).unwrap();
    assert_eq!(m.get(&"nothing".to_string()), Some(&Vec::new()));
}

#[test]
fn decode_array_and_object_fields() {
    let m = decode_reply(br#"{"arr":[1,"x"],"obj":{"k":1}}"#).unwrap();
    assert_eq!(m.get(&"arr".to_string()), Some(&br#"[1,"x"]"#.to_vec()));
    assert_eq!(m.get(&"obj".to_string()), Some(&br#"{"k":1}"#.to_vec()));
}

#[test]
fn decode_malformed_frame_fails() {
    assert_eq!(decode_reply(b"not json").unwrap_err(), DispatchError::WireDecodeFailure);
    assert_eq!(decode_reply(br#"{"unterminated":"#).unwrap_err(), DispatchError::WireDecodeFailure);
}

#[test]
fn decode_non_object_frame_fails() {
    assert_eq!(decode_reply(br#"[1,2,3]"#).unwrap_err(), DispatchError::WireDecodeFailure);
    assert_eq!(decode_reply(br#""just a string""#).unwrap_err(), DispatchError::WireDecodeFailure);
}

#[test]
fn round_trip_scalar_shapes() {
    // A reply built from the same key/value shapes as the request decodes
    // to byte-identical values: string, numeric, boolean and null fields.
    let m = Message::new(vec![
        ("text".to_string(), b"hi".to_vec()),
        ("num".to_string(), b"7".to_vec()),
        ("flag".to_string(), b"true".to_vec()),
        ("none".to_string(), Vec::new()),
    ]);
    let echoed = decode_reply(br#"{"text":"hi","num":7,"flag":true,"none":null}"#).unwrap();
    for name in ["text", "num", "flag", "none"] {
        assert_eq!(echoed.get(&name.to_string()), m.get(&name.to_string()));
    }
}
