//! Reading and rewriting the frames of ID3v2 tags: a typed model of frame
//! content, the replace-or-append rule for a tag's frame list, and the bridge
//! between frames and text-safe key/value records.

pub mod base64_text;
pub mod frame;
pub mod mutation;
pub mod record;
pub mod request;
