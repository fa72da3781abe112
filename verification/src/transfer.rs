//! The decisions of an upload and of a download: which identifier a file is
//! stored under, which requested segment is looked up at all, and what a
//! request is answered with.

use vstd::prelude::*;
use vstd::utf8::{encode_utf8, is_ascii_chars, is_ascii_chars_encode_utf8};

use crate::base64url::encoded_len;
use crate::charset::{all_accepted, all_safe, is_accepted};
use crate::file_id::{generated_from, FileId};
use crate::recover::{
    attachment_header, content_disposition, original_name, recovered_name, CONTENT_TYPE,
};
use crate::suffix::ID_LENGTH;

verus! {

/// The longest identifier that is stored or looked up: the longest name that
/// common file systems take for one path segment.
pub const MAX_ID_LENGTH: usize = 255;

/// Why an upload is turned down before anything is stored.
#[derive(Clone, Copy, Debug, PartialEq, Eq, Structural)]
pub enum UploadError {
    /// The form names no file.
    InvalidFileName,
    /// The identifier of the file name would not fit in one path segment.
    FileNameTooLong,
}

impl UploadError {
    /// The text sent to the client.
    pub fn message(&self) -> (text: &'static str)
        ensures
            text@ == match *self {
                UploadError::InvalidFileName => "Invalid file name."@,
                UploadError::FileNameTooLong => "File name too long."@,
            },
    {
        match self {
            UploadError::InvalidFileName => "Invalid file name.",
            UploadError::FileNameTooLong => "File name too long.",
        }
    }
}

/// What a request for a stored file is answered with.
#[derive(Debug)]
pub enum Reply {
    /// The bytes of the file, under these two headers.
    Attachment { content_type: &'static str, content_disposition: String },
    /// The stored name gives no file name back.
    BadRequest,
    /// No file is stored under the identifier.
    NotFound,
}

/// The length of an identifier of `file_name` with a suffix of `size` characters.
pub open spec fn id_length(file_name: Seq<char>, size: nat) -> nat {
    encoded_len(encode_utf8(file_name).len()) + size
}

/// The identifier under which an upload is stored, where `raw_name` is the
/// file name as the client sent it, if it sent one. An upload without a file
/// name is turned down, and so is one whose identifier would be longer than
/// `MAX_ID_LENGTH`.
pub fn upload_id(raw_name: Option<&str>) -> (id: Result<FileId<'static>, UploadError>)
    ensures
        match raw_name {
            None => id matches Err(e) && e == UploadError::InvalidFileName,
            Some(name) => if id_length(name@, ID_LENGTH as nat) > MAX_ID_LENGTH {
                id matches Err(e) && e == UploadError::FileNameTooLong
            } else {
                &&& id matches Ok(made)
                &&& generated_from(made@, name@, ID_LENGTH as nat)
                &&& all_safe(made@)
                &&& 0 < made@.len() <= MAX_ID_LENGTH
                &&& recovered_name(made@, ID_LENGTH as nat) is Ok
                &&& recovered_name(made@, ID_LENGTH as nat)->Ok_0 == name@
            },
        },
{
    match raw_name {
        None => Err(UploadError::InvalidFileName),
        Some(name) => {
            let len: usize = name.as_bytes().len();
            if len > MAX_ID_LENGTH {
                return Err(UploadError::FileNameTooLong);
            }
            let needed: usize = 4 * ((len + 2) / 3) + ID_LENGTH;
            if needed > MAX_ID_LENGTH {
                return Err(UploadError::FileNameTooLong);
            }
            Ok(FileId::new(name, ID_LENGTH))
        },
    }
}

/// Accepted text is ASCII, so it has as many bytes as characters.
pub proof fn lemma_accepted_is_ascii(s: Seq<char>)
    requires
        all_accepted(s),
    ensures
        is_ascii_chars(s),
        encode_utf8(s).len() == s.len(),
{
    assert forall|i: int| 0 <= i < s.len() implies '\0' <= #[trigger] s[i] <= '\u{7f}' by {
        assert(is_accepted(s[i]));
    }
    is_ascii_chars_encode_utf8(s);
}

/// The identifier that a requested path segment stands for: the segment
/// itself, if validation accepts it and it is no longer than
/// `MAX_ID_LENGTH`. Otherwise the segment comes back as the `Err` value.
pub fn requested_id<'a>(segment: &'a str) -> (id: Result<FileId<'a>, &'a str>)
    ensures
        id is Ok <==> all_accepted(segment@) && segment@.len() <= MAX_ID_LENGTH,
        id matches Ok(valid) ==> valid@ == segment@,
        id matches Err(invalid) ==> invalid@ == segment@,
{
    proof {
        if all_accepted(segment@) {
            lemma_accepted_is_ascii(segment@);
        }
    }
    if segment.as_bytes().len() > MAX_ID_LENGTH {
        Err(segment)
    } else {
        FileId::from_param(segment)
    }
}

/// The answer to a request for the file at `stored_path`, where `found` says
/// whether a file is stored there.
pub fn reply_for(stored_path: &str, found: bool) -> (reply: Reply)
    ensures
        !found ==> reply is NotFound,
        found && recovered_name(stored_path@, ID_LENGTH as nat) is Err ==> reply is BadRequest,
        found && recovered_name(stored_path@, ID_LENGTH as nat) is Ok ==> {
            &&& reply matches Reply::Attachment { content_type, content_disposition }
            &&& content_type@ == CONTENT_TYPE@
            &&& content_disposition@ == attachment_header(
                recovered_name(stored_path@, ID_LENGTH as nat)->Ok_0,
            )
        },
{
    if !found {
        return Reply::NotFound;
    }
    match original_name(stored_path, ID_LENGTH) {
        Err(_) => Reply::BadRequest,
        Ok(name) => Reply::Attachment {
            content_type: CONTENT_TYPE,
            content_disposition: content_disposition(name.as_str()),
        },
    }
}

} // verus!
