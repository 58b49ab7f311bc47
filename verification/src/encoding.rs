//! Frame payload encoding.
//!
//! Captured frames travel to the embedding's frontend as text, and come
//! back the same way before they are submitted onward; the transformation
//! in both directions is the standard padded base64 alphabet, performed by
//! the base64 crate behind trusted wrappers.

use vstd::prelude::*;

verus! {

/// What the standard padded-alphabet encoder returns for the given bytes:
/// a function of the bytes alone.
pub uninterp spec fn base64_of(bytes: Seq<u8>) -> Seq<char>;

/// What the standard padded-alphabet decoder returns for the given text,
/// or `None` where the text is not a valid encoding: a function of the
/// text alone.
pub uninterp spec fn base64_decoded(text: Seq<char>) -> Option<Seq<u8>>;

/// Relies on base64's `Engine::encode` with the standard padded alphabet:
/// the encoding depends on the input bytes alone, an empty input encodes
/// to the empty string, and `Engine::decode` inverts the encoding. The
/// length bound keeps the encoder's internal size computation from
/// overflowing.
#[verifier::external_body]
fn base64_encode(bytes: &Vec<u8>) -> (r: String)
    requires
        bytes@.len() * 4 <= usize::MAX as int,
    ensures
        r@ == base64_of(bytes@),
        bytes@.len() == 0 ==> r@.len() == 0,
        base64_decoded(r@) == Some(bytes@),
{
    base64::Engine::encode(&base64::engine::general_purpose::STANDARD, bytes)
}

/// Relies on base64's `Engine::decode` with the standard padded alphabet:
/// whether the text decodes, and to what, depends on the text alone.
#[verifier::external_body]
fn base64_decode(text: &str) -> (r: Option<Vec<u8>>)
    ensures
        match r {
            Some(bytes) => base64_decoded(text@) == Some(bytes@),
            None => base64_decoded(text@) is None,
        },
{
    base64::Engine::decode(&base64::engine::general_purpose::STANDARD, text).ok()
}

/// Encodes a captured frame for hand-off to the embedding's frontend.
/// Decoding the result gives back exactly the frame.
pub fn encode_frame(frame: &Vec<u8>) -> (r: String)
    requires
        frame@.len() * 4 <= usize::MAX as int,
    ensures
        r@ == base64_of(frame@),
        base64_decoded(r@) == Some(frame@),
{
    base64_encode(frame)
}

/// Decodes a frame payload received as text, as the submission path does
/// before raw frame bytes go out. Returns `None` exactly when the text is
/// not a valid encoding.
pub fn decode_frame_payload(text: &str) -> (r: Option<Vec<u8>>)
    ensures
        match r {
            Some(bytes) => base64_decoded(text@) == Some(bytes@),
            None => base64_decoded(text@) is None,
        },
{
    base64_decode(text)
}

} // verus!
