use id3_frames::frame::FrameContent;
use id3_frames::request::{content_from_decoded, content_from_payload};

#[test]
fn base64_payload_is_binary() {
    assert_eq!(content_from_payload("aGVsbG8=".to_string()), FrameContent::Unknown(b"hello".to_vec()));
}

#[test]
fn plain_payload_is_text() {
    assert_eq!(
        content_from_payload("hello world".to_string()),
        FrameContent::Text("hello world".to_string())
    );
}

#[test]
fn empty_payload_is_binary() {
    assert_eq!(content_from_payload(String::new()), FrameContent::Unknown(Vec::new()));
}

#[test]
fn numeric_payload_that_is_base64_is_binary() {
    assert_eq!(content_from_payload("1234".to_string()), FrameContent::Unknown(vec![0xd7, 0x6d, 0xf8]));
}

#[test]
fn numeric_payload_of_bad_length_is_text() {
    assert_eq!(content_from_payload("123".to_string()), FrameContent::Text("123".to_string()));
}

#[test]
fn unpadded_base64_payload_is_binary() {
    assert_eq!(content_from_payload("aGVsbG8".to_string()), FrameContent::Unknown(b"hello".to_vec()));
}

#[test]
fn decoded_bytes_give_binary() {
    assert_eq!(
        content_from_decoded("ignored".to_string(), Some(vec![1, 2, 3])),
        FrameContent::Unknown(vec![1, 2, 3])
    );
}

#[test]
fn no_decoded_bytes_give_text() {
    assert_eq!(
        content_from_decoded("Track 1".to_string(), None),
        FrameContent::Text("Track 1".to_string())
    );
}

#[test]
fn payload_with_stray_symbol_is_text() {
    assert_eq!(content_from_payload("aGVs*G8=".to_string()), FrameContent::Text("aGVs*G8=".to_string()));
}
