//! Turning a mutation request (position, identifier, text payload) into a
//! frame and placing it in a frame list.
use vstd::prelude::*;
use crate::base64_text::{base64_decoded, decode_base64};
use crate::frame::{ContentView, Frame, FrameContent, FrameView, frames_view};
use crate::mutation::{lemma_view_replaced_or_appended, replace_or_append, replaced_or_appended};

verus! {

/// The content a payload stands for: the decoded bytes where the payload is
/// valid base64, else the payload itself as text. Empty and numeric-looking
/// payloads follow the same rule.
pub open spec fn payload_content(payload: Seq<char>) -> ContentView {
    match base64_decoded(payload) {
        Some(b) => ContentView::Unknown(b),
        None => ContentView::Text(payload),
    }
}

/// The content for `payload`, given what base64 decoding made of it:
/// binary content for decoded bytes, else the payload as text.
pub fn content_from_decoded(payload: String, decoded: Option<Vec<u8>>) -> (r: FrameContent)
    ensures
        r@ == (match decoded {
            Some(b) => ContentView::Unknown(b@),
            None => ContentView::Text(payload@),
        }),
{
    match decoded {
        Some(b) => FrameContent::Unknown(b),
        None => FrameContent::Text(payload),
    }
}

/// The content for `payload`: binary where it is valid base64, else text.
pub fn content_from_payload(payload: String) -> (r: FrameContent)
    ensures
        r@ == payload_content(payload@),
{
    let decoded = match decode_base64(&payload) {
        Ok(b) => Some(b),
        Err(_) => None,
    };
    content_from_decoded(payload, decoded)
}

/// A request to place one frame in a tag.
#[derive(Clone, Debug, PartialEq, Eq)]
pub struct MutationRequest {
    pub index: usize,
    pub identifier: String,
    pub payload: String,
}

impl MutationRequest {
    /// The frame that the request asks for.
    pub open spec fn frame_view(&self) -> FrameView {
        FrameView { id: self.identifier@, content: payload_content(self.payload@) }
    }

    pub fn new(index: usize, identifier: String, payload: String) -> (r: MutationRequest)
        ensures
            r.index == index,
            r.identifier == identifier,
            r.payload == payload,
    {
        MutationRequest { index, identifier, payload }
    }

    /// The frame that the request asks for.
    pub fn into_frame(self) -> (r: Frame)
        ensures
            r@ == self.frame_view(),
    {
        let content = content_from_payload(self.payload);
        Frame::with_content(self.identifier, content)
    }
}

/// Places the requested frame in `frames` by the replace-or-append rule.
pub fn apply_request(frames: Vec<Frame>, request: MutationRequest) -> (r: Vec<Frame>)
    ensures
        frames_view(r@) == replaced_or_appended(
            frames_view(frames@),
            request.index as int,
            request.frame_view(),
        ),
{
    let index = request.index;
    let frame = request.into_frame();
    proof {
        lemma_view_replaced_or_appended(frames@, index as int, frame);
    }
    replace_or_append(frames, index, frame)
}

} // verus!
