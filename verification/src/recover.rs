//! Recovery of the original file name from the name a file is stored under.

use vstd::prelude::*;
use vstd::string::{StrSliceExecFns, StringExecFns, StringSliceAdditionalSpecFns};
use vstd::utf8::{decode_utf8, encode_utf8, valid_utf8};

use crate::base64url::{decode, url_safe_decoding};
use crate::path::{base_name, file_name, lemma_base_name_of_stored_path, stored_path, SEPARATOR};

verus! {

/// The content type under which every stored file is served.
pub const CONTENT_TYPE: &'static str = "application/octet-stream";

/// Why a stored name does not give back a file name.
#[derive(Clone, Copy, Debug, PartialEq, Eq, Structural)]
pub enum InvalidIdentifier {
    /// The name is shorter than the random suffix alone.
    TooShort,
    /// What precedes the suffix is not the encoding of any bytes.
    NotEncoded,
    /// The decoded bytes are not text.
    NotText,
}

/// `core::str::Utf8Error`, the error of std's UTF-8 check. Nothing of its
/// contents is read here.
#[verifier::external_type_specification]
#[verifier::external_body]
pub struct ExUtf8Error(core::str::Utf8Error);

/// `core::str::from_utf8`: it succeeds exactly on valid UTF-8, and the text
/// it gives consists of the bytes it was given.
pub assume_specification[ core::str::from_utf8 ](bytes: &[u8]) -> (text: Result<
    &str,
    core::str::Utf8Error,
>)
    ensures
        text is Ok <==> valid_utf8(bytes@),
        text matches Ok(t) ==> t.spec_bytes() == bytes@,
;

/// The views of both sides of a result.
pub open spec fn name_view(r: Result<String, InvalidIdentifier>) -> Result<
    Seq<char>,
    InvalidIdentifier,
> {
    match r {
        Ok(name) => Ok(name@),
        Err(e) => Err(e),
    }
}

/// The file name that decoded bytes stand for, where `decoded` is what the
/// text encoding gave for the part in front of the suffix.
pub open spec fn name_of_decoded(decoded: Option<Seq<u8>>) -> Result<Seq<char>, InvalidIdentifier> {
    match decoded {
        None => Err(InvalidIdentifier::NotEncoded),
        Some(bytes) => if valid_utf8(bytes) {
            Ok(decode_utf8(bytes))
        } else {
            Err(InvalidIdentifier::NotText)
        },
    }
}

/// The original file name of the file stored at `stored_path`, whose name
/// ends in a suffix of `suffix_len` characters: the last segment of the path,
/// without its last `suffix_len` characters, decoded.
pub open spec fn recovered_name(stored_path: Seq<char>, suffix_len: nat) -> Result<
    Seq<char>,
    InvalidIdentifier,
> {
    let name = base_name(stored_path);
    if name.len() < suffix_len {
        Err(InvalidIdentifier::TooShort)
    } else {
        name_of_decoded(url_safe_decoding(name.take(name.len() - suffix_len)))
    }
}

/// The file name that the outcome of decoding stands for.
pub fn name_from_decoded(decoded: Result<Vec<u8>, base64::DecodeError>) -> (name: Result<
    String,
    InvalidIdentifier,
>)
    ensures
        name_view(name) == name_of_decoded(
            match decoded {
                Ok(bytes) => Some(bytes@),
                Err(_) => None,
            },
        ),
{
    match decoded {
        Err(_) => Err(InvalidIdentifier::NotEncoded),
        Ok(bytes) => {
            match core::str::from_utf8(bytes.as_slice()) {
                Err(_) => Err(InvalidIdentifier::NotText),
                Ok(text) => {
                    proof {
                        vstd::utf8::encode_utf8_decode_utf8(text@);
                    }
                    Ok(String::from_str(text))
                },
            }
        },
    }
}

/// The original file name of the file stored at `stored_path`, whose name
/// ends in a random suffix of `suffix_len` characters.
pub fn original_name(stored_path: &str, suffix_len: usize) -> (name: Result<
    String,
    InvalidIdentifier,
>)
    ensures
        name_view(name) == recovered_name(stored_path@, suffix_len as nat),
{
    let stored = file_name(stored_path);
    let len: usize = stored.unicode_len();
    if len < suffix_len {
        return Err(InvalidIdentifier::TooShort);
    }
    let prefix = stored.substring_char(0, len - suffix_len);
    assert(prefix@ =~= stored@.take(len - suffix_len));
    name_from_decoded(decode(prefix))
}

/// The `Content-Disposition` header that offers a download under `file_name`.
pub open spec fn attachment_header(file_name: Seq<char>) -> Seq<char> {
    "attachment; filename=\""@ + file_name + "\""@
}

/// The `Content-Disposition` header that offers a download under `file_name`.
pub fn content_disposition(file_name: &str) -> (header: String)
    ensures
        header@ == attachment_header(file_name@),
{
    let mut header = String::from_str("attachment; filename=\"");
    header.append(file_name);
    header.append("\"");
    header
}

/// A name made of an encoded file name and a suffix gives the file name back,
/// whatever directory it is stored in: provided the encoding decodes to the
/// bytes of the file name, and neither part holds a separator.
pub proof fn lemma_recover_stored(
    dir: Seq<char>,
    file_name: Seq<char>,
    prefix: Seq<char>,
    suffix: Seq<char>,
)
    requires
        url_safe_decoding(prefix) == Some(encode_utf8(file_name)),
        forall|i: int| 0 <= i < prefix.len() ==> #[trigger] prefix[i] != SEPARATOR,
        forall|i: int| 0 <= i < suffix.len() ==> #[trigger] suffix[i] != SEPARATOR,
    ensures
        recovered_name(stored_path(dir, prefix + suffix), suffix.len()) == Ok::<
            Seq<char>,
            InvalidIdentifier,
        >(file_name),
        recovered_name(prefix + suffix, suffix.len()) == Ok::<Seq<char>, InvalidIdentifier>(
            file_name,
        ),
{
    let id = prefix + suffix;
    lemma_base_name_of_stored_path(dir, id);
    crate::path::lemma_name_start_append(Seq::<char>::empty(), id);
    assert(Seq::<char>::empty() + id =~= id);
    assert(base_name(id) =~= id);
    assert(id.take(id.len() - suffix.len()) =~= prefix);
    vstd::utf8::encode_utf8_valid_utf8(file_name);
    vstd::utf8::encode_utf8_decode_utf8(file_name);
}

} // verus!
