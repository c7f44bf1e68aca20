//! Base64 text for binary payloads, through the `base64` crate (standard
//! alphabet, with padding).
use vstd::prelude::*;

verus! {

#[verifier::external_type_specification]
#[verifier::external_body]
pub struct ExDecodeError(base64::DecodeError);

/// The text that `base64::encode` gives for a byte sequence.
pub uninterp spec fn base64_encoded(data: Seq<u8>) -> Seq<char>;

/// What `base64::decode` gives for a text: the bytes, or `None` where the
/// text is not valid base64.
pub uninterp spec fn base64_decoded(text: Seq<char>) -> Option<Seq<u8>>;

/// Relies on `base64::encode`: the text depends on the bytes alone, and
/// `base64::decode` takes it back to the same bytes.
#[verifier::external_body]
pub(crate) fn encode_base64(data: &Vec<u8>) -> (r: String)
    ensures
        r@ == base64_encoded(data@),
        base64_decoded(r@) == Some(data@),
{
    base64::encode(data)
}

/// Relies on `base64::decode`: whether it succeeds, and the bytes it gives,
/// depend on the text alone.
#[verifier::external_body]
pub(crate) fn decode_base64(text: &String) -> (r: Result<Vec<u8>, base64::DecodeError>)
    ensures
        match r {
            Ok(b) => base64_decoded(text@) == Some(b@),
            Err(_) => base64_decoded(text@) is None,
        },
{
    base64::decode(text)
}

} // verus!
