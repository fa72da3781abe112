//! The reversible text encoding of file names: URL-safe base64 with padding,
//! as the `base64` crate computes it.

use base64::engine::general_purpose::URL_SAFE;
use base64::Engine;
use vstd::prelude::*;

use crate::charset::all_safe;

verus! {

/// `base64::DecodeError`, the error of the decoder. Nothing of its contents
/// is read here.
#[verifier::external_type_specification]
#[verifier::external_body]
pub struct ExDecodeError(base64::DecodeError);

/// The text that `URL_SAFE.encode_string` writes for `bytes`.
pub uninterp spec fn url_safe_encoding(bytes: Seq<u8>) -> Seq<char>;

/// The bytes that `URL_SAFE.decode` gives for `text`, or `None` where it fails.
pub uninterp spec fn url_safe_decoding(text: Seq<char>) -> Option<Seq<u8>>;

/// The length of the encoding of `len` bytes: four symbols for every three
/// bytes, the last group padded to four.
pub open spec fn encoded_len(len: nat) -> nat {
    4 * ((len + 2) / 3)
}

/// `base64::Engine::encode_string` on the engine `URL_SAFE`, writing into an
/// empty text.
///
/// Trusted: the result is a function of the bytes alone; it is as long as
/// `base64::encoded_len` says for padded output; it is made of the URL-safe
/// alphabet (`A-Z`, `a-z`, `0-9`, `-`, `_`) and the padding `=`; and the same
/// engine decodes it back to the bytes.
#[verifier::external_body]
pub(crate) fn encode(bytes: &[u8]) -> (text: String)
    ensures
        text@ == url_safe_encoding(bytes@),
        text@.len() == encoded_len(bytes@.len()),
        all_safe(text@),
        url_safe_decoding(text@) == Some(bytes@),
{
    let mut text = String::new();
    URL_SAFE.encode_string(bytes, &mut text);
    text
}

/// `base64::Engine::decode` on the engine `URL_SAFE`.
///
/// Trusted: whether it succeeds, and the bytes it gives, are a function of
/// the text alone.
#[verifier::external_body]
pub(crate) fn decode(text: &str) -> (decoded: Result<Vec<u8>, base64::DecodeError>)
    ensures
        match decoded {
            Ok(bytes) => url_safe_decoding(text@) == Some(bytes@),
            Err(_) => url_safe_decoding(text@) is None,
        },
{
    URL_SAFE.decode(text)
}

} // verus!
