use id3_frames::frame::{Frame, FrameContent};
use id3_frames::mutation::replace_or_append;
use id3_frames::request::{apply_request, MutationRequest};

fn text_frame(id: &str, text: &str) -> Frame {
    Frame::with_content(id.to_string(), FrameContent::Text(text.to_string()))
}

fn abc() -> Vec<Frame> {
    vec![text_frame("TIT2", "a"), text_frame("TPE1", "b"), text_frame("TALB", "c")]
}

fn d() -> Frame {
    text_frame("TCON", "d")
}

#[test]
fn replace_inside_keeps_the_rest() {
    let r = replace_or_append(abc(), 1, d());
    assert_eq!(r, vec![text_frame("TIT2", "a"), d(), text_frame("TALB", "c")]);
}

#[test]
fn replace_last_position() {
    let r = replace_or_append(abc(), 2, d());
    assert_eq!(r, vec![text_frame("TIT2", "a"), text_frame("TPE1", "b"), d()]);
}

#[test]
fn index_zero_appends() {
    let r = replace_or_append(abc(), 0, d());
    assert_eq!(r.len(), 4);
    let mut expected = abc();
    expected.push(d());
    assert_eq!(r, expected);
}

#[test]
fn index_past_end_appends() {
    let r = replace_or_append(abc(), 5, d());
    let mut expected = abc();
    expected.push(d());
    assert_eq!(r, expected);
}

#[test]
fn index_equal_to_length_appends() {
    let r = replace_or_append(abc(), 3, d());
    let mut expected = abc();
    expected.push(d());
    assert_eq!(r, expected);
}

#[test]
fn empty_list_gets_one_frame() {
    let r = replace_or_append(Vec::new(), 0, d());
    assert_eq!(r, vec![d()]);
    let r = replace_or_append(Vec::new(), 7, d());
    assert_eq!(r, vec![d()]);
}

#[test]
fn identifiers_are_not_matched() {
    // The frame at position 1 is replaced even though its identifier differs,
    // and a frame with the same identifier elsewhere stays.
    let frames = vec![text_frame("TCON", "x"), text_frame("TPE1", "b"), text_frame("TCON", "y")];
    let r = replace_or_append(frames, 1, d());
    assert_eq!(r, vec![text_frame("TCON", "x"), d(), text_frame("TCON", "y")]);
}

#[test]
fn works_on_plain_values() {
    let r = replace_or_append(vec![1u32, 2, 3], 1, 9);
    assert_eq!(r, vec![1, 9, 3]);
    let r = replace_or_append(vec![1u32, 2, 3], 0, 9);
    assert_eq!(r, vec![1, 2, 3, 9]);
}

#[test]
fn request_with_text_payload_replaces() {
    let req = MutationRequest::new(1, "TPE1".to_string(), "hello world".to_string());
    let r = apply_request(abc(), req);
    assert_eq!(r, vec![text_frame("TIT2", "a"), text_frame("TPE1", "hello world"), text_frame("TALB", "c")]);
}

#[test]
fn request_with_base64_payload_appends_binary() {
    let req = MutationRequest::new(0, "PRIV".to_string(), "aGVsbG8=".to_string());
    let r = apply_request(abc(), req);
    assert_eq!(r.len(), 4);
    assert_eq!(r[3], Frame::with_content("PRIV".to_string(), FrameContent::Unknown(b"hello".to_vec())));
    assert_eq!(r[..3].to_vec(), abc());
}

#[test]
fn request_into_frame() {
    let req = MutationRequest::new(4, "TIT2".to_string(), "not base64!".to_string());
    assert_eq!(req.index, 4);
    let f = req.into_frame();
    assert_eq!(f, text_frame("TIT2", "not base64!"));
}
