//! Identifiers of stored files.

use std::borrow::Cow;

use vstd::prelude::*;
use vstd::string::StringExecFns;
use vstd::utf8::encode_utf8;

use crate::base64url::{encode, encoded_len, url_safe_decoding, url_safe_encoding};
use crate::charset::{
    all_accepted, all_alphanumeric, all_safe, has_hostile_char, is_accepted_text, is_hostile,
    is_safe, is_safe_text, lemma_safe_is_not_hostile,
};
use crate::path::{
    base_name, is_child_of, join, lemma_base_name_of_stored_path, lemma_stored_path_is_child,
    stored_path, SEPARATOR,
};
use crate::recover::{lemma_recover_stored, recovered_name, InvalidIdentifier};
use crate::suffix::random_suffix;

verus! {

/// A _probably_ unique file ID: the encoded name of an uploaded file, and a
/// random suffix behind it. It names the stored file and is the token by
/// which a client asks for it.
///
/// Whatever way it was made, it holds safe characters only. Validation of
/// what a client sends is stricter: it turns down the symbols `-` and `_`,
/// which the encoding of a name may hold.
#[derive(Debug)]
pub struct FileId<'a>(Cow<'a, str>);

impl<'a> View for FileId<'a> {
    type V = Seq<char>;

    closed spec fn view(&self) -> Seq<char> {
        self.0@
    }
}

/// `id` is the encoding of `file_name` with `size` alphanumeric symbols behind it.
pub open spec fn generated_from(id: Seq<char>, file_name: Seq<char>, size: nat) -> bool {
    let prefix = url_safe_encoding(encode_utf8(file_name));
    &&& id.len() == prefix.len() + size
    &&& id.take(prefix.len() as int) == prefix
    &&& all_alphanumeric(id.skip(prefix.len() as int))
}

impl<'a> FileId<'a> {
    /// Every identifier is made of safe characters, so that it can stand in a
    /// path as one segment.
    #[verifier::type_invariant]
    closed spec fn well_formed(self) -> bool {
        all_safe(self.0@)
    }

    /// Generate a _probably_ unique ID for `file_name`, with `size` random
    /// characters from the sets [0-9], [A-Z], [a-z] behind the encoded name.
    /// The probability of a collision depends on the value of `size` and the
    /// number of IDs generated thus far.
    ///
    /// The name may hold any characters: it is encoded, never interpreted.
    pub fn new(file_name: &str, size: usize) -> (id: FileId<'static>)
        ensures
            generated_from(id@, file_name@, size as nat),
            id@.len() == encoded_len(encode_utf8(file_name@).len()) + size,
            all_safe(id@),
            recovered_name(id@, size as nat) == Ok::<Seq<char>, InvalidIdentifier>(file_name@),
            forall|dir: Seq<char>| #[trigger]
                recovered_name(stored_path(dir, id@), size as nat) == Ok::<
                    Seq<char>,
                    InvalidIdentifier,
                >(file_name@),
            id@.len() > 0 ==> forall|dir: Seq<char>| is_child_of(#[trigger] stored_path(dir, id@), dir),
    {
        let suffix = random_suffix(size);
        let mut text = encode(file_name.as_bytes());
        let ghost prefix = text@;
        text.append(suffix.as_str());
        proof {
            assert(text@.take(prefix.len() as int) =~= prefix);
            assert(text@.skip(prefix.len() as int) =~= suffix@);
            lemma_generated_is_safe(text@, file_name@, size as nat);
            lemma_generated_is_recovered(Seq::empty(), text@, file_name@, size as nat);
            assert forall|dir: Seq<char>| #[trigger]
                recovered_name(stored_path(dir, text@), size as nat) == Ok::<
                    Seq<char>,
                    InvalidIdentifier,
                >(file_name@) by {
                lemma_generated_is_recovered(dir, text@, file_name@, size as nat);
            }
            if text@.len() > 0 {
                assert forall|dir: Seq<char>| is_child_of(#[trigger] stored_path(dir, text@), dir) by {
                    lemma_generated_path_is_child(dir, text@, file_name@, size as nat);
                }
            }
        }
        FileId(Cow::Owned(text))
    }

    /// The identifier made of `encoded` and `suffix`, where both are made of
    /// safe characters; `None` where either holds anything else.
    pub fn from_parts(encoded: &str, suffix: &str) -> (id: Option<FileId<'static>>)
        ensures
            id is Some <==> all_safe(encoded@) && all_safe(suffix@),
            id matches Some(made) ==> made@ == encoded@ + suffix@,
    {
        if is_safe_text(encoded) && is_safe_text(suffix) {
            let mut text = String::from_str(encoded);
            text.append(suffix);
            Some(FileId(Cow::Owned(text)))
        } else {
            None
        }
    }

    /// Returns an instance of `FileId` if the path segment is a valid ID:
    /// if each of its characters is alphanumeric or the padding `=`.
    /// Otherwise returns the invalid ID as the `Err` value.
    pub fn from_param(param: &'a str) -> (id: Result<FileId<'a>, &'a str>)
        ensures
            id is Ok <==> all_accepted(param@),
            has_hostile_char(param@) ==> id is Err,
            id matches Ok(valid) ==> valid@ == param@,
            id matches Err(invalid) ==> invalid@ == param@,
    {
        proof {
            lemma_hostile_is_not_accepted(param@);
        }
        if is_accepted_text(param) {
            proof {
                lemma_accepted_is_safe(param@);
            }
            Ok(FileId(Cow::Borrowed(param)))
        } else {
            Err(param)
        }
    }

    /// Returns the path to the file in `upload_dir` corresponding to this ID:
    /// the directory, a separator, and the ID as the one segment behind it.
    pub fn file_path(&self, upload_dir: &str) -> (path: String)
        ensures
            path@ == stored_path(upload_dir@, self@),
            base_name(path@) == self@,
            self@.len() > 0 ==> is_child_of(path@, upload_dir@),
    {
        proof {
            use_type_invariant(self);
            lemma_no_separator(self@);
            lemma_base_name_of_stored_path(upload_dir@, self@);
            if self@.len() > 0 {
                lemma_stored_path_is_child(upload_dir@, self@);
            }
        }
        join(upload_dir, self.as_str())
    }

    /// The text of the identifier.
    pub fn as_str(&self) -> (text: &str)
        ensures
            text@ == self@,
            all_safe(text@),
    {
        proof {
            use_type_invariant(self);
        }
        match &self.0 {
            Cow::Borrowed(text) => text,
            Cow::Owned(text) => text.as_str(),
        }
    }
}

/// Text of safe characters holds no separator.
pub proof fn lemma_no_separator(s: Seq<char>)
    requires
        all_safe(s),
    ensures
        forall|i: int| 0 <= i < s.len() ==> #[trigger] s[i] != SEPARATOR,
{
    assert forall|i: int| 0 <= i < s.len() implies #[trigger] s[i] != SEPARATOR by {
        lemma_safe_is_not_hostile(s[i]);
    }
}

/// What validation accepts is made of safe characters.
pub proof fn lemma_accepted_is_safe(s: Seq<char>)
    requires
        all_accepted(s),
    ensures
        all_safe(s),
{
    assert forall|i: int| 0 <= i < s.len() implies is_safe(#[trigger] s[i]) by {
        lemma_safe_is_not_hostile(s[i]);
    }
}

/// The file of a validated identifier lies directly in the upload directory,
/// and its last segment is the identifier: validation alone keeps a
/// requested segment, unless it is empty, from leaving the directory.
pub proof fn lemma_accepted_path_is_child(dir: Seq<char>, id: Seq<char>)
    requires
        all_accepted(id),
        id.len() > 0,
    ensures
        is_child_of(stored_path(dir, id), dir),
        base_name(stored_path(dir, id)) == id,
{
    lemma_accepted_is_safe(id);
    lemma_stored_path_is_child(dir, id);
    lemma_no_separator(id);
    lemma_base_name_of_stored_path(dir, id);
}

/// Validation accepts no text that holds a separator, a backslash or a
/// control character.
pub proof fn lemma_hostile_is_not_accepted(s: Seq<char>)
    ensures
        has_hostile_char(s) ==> !all_accepted(s),
{
    if has_hostile_char(s) {
        let i = choose|i: int| 0 <= i < s.len() && is_hostile(#[trigger] s[i]);
        lemma_safe_is_not_hostile(s[i]);
    }
}

/// A generated identifier is made of safe characters, since the encoding of
/// the file name is.
proof fn lemma_generated_is_safe(id: Seq<char>, file_name: Seq<char>, size: nat)
    requires
        generated_from(id, file_name, size),
        all_safe(url_safe_encoding(encode_utf8(file_name))),
    ensures
        all_safe(id),
{
    let prefix = url_safe_encoding(encode_utf8(file_name));
    let suffix = id.skip(prefix.len() as int);
    assert forall|i: int| 0 <= i < id.len() implies is_safe(#[trigger] id[i]) by {
        if i < prefix.len() {
            assert(id[i] == id.take(prefix.len() as int)[i]);
        } else {
            assert(id[i] == suffix[i - prefix.len()]);
            lemma_safe_is_not_hostile(id[i]);
        }
    }
}

/// Round trip: the file stored under a generated identifier, in whatever
/// directory, gives back the file name that the identifier was generated
/// from, and so does the identifier alone; provided the text encoding is
/// reversible on the bytes of that name.
pub proof fn lemma_generated_is_recovered(
    dir: Seq<char>,
    id: Seq<char>,
    file_name: Seq<char>,
    size: nat,
)
    requires
        generated_from(id, file_name, size),
        all_safe(id),
        url_safe_decoding(url_safe_encoding(encode_utf8(file_name))) == Some(
            encode_utf8(file_name),
        ),
    ensures
        recovered_name(stored_path(dir, id), size) == Ok::<Seq<char>, InvalidIdentifier>(
            file_name,
        ),
        recovered_name(id, size) == Ok::<Seq<char>, InvalidIdentifier>(file_name),
{
    let prefix = url_safe_encoding(encode_utf8(file_name));
    let suffix = id.skip(prefix.len() as int);
    lemma_no_separator(id);
    assert(prefix + suffix =~= id);
    assert forall|i: int| 0 <= i < prefix.len() implies #[trigger] prefix[i] != SEPARATOR by {
        assert(prefix[i] == id[i]);
    }
    assert forall|i: int| 0 <= i < suffix.len() implies #[trigger] suffix[i] != SEPARATOR by {
        assert(suffix[i] == id[i + prefix.len()]);
    }
    lemma_recover_stored(dir, file_name, prefix, suffix);
}

/// Path safety: the file of a generated identifier lies directly in the
/// upload directory, whatever the file name and the directory, unless the
/// identifier is empty.
pub proof fn lemma_generated_path_is_child(
    dir: Seq<char>,
    id: Seq<char>,
    file_name: Seq<char>,
    size: nat,
)
    requires
        generated_from(id, file_name, size),
        all_safe(id),
        id.len() > 0,
    ensures
        is_child_of(stored_path(dir, id), dir),
        base_name(stored_path(dir, id)) == id,
{
    lemma_stored_path_is_child(dir, id);
    lemma_no_separator(id);
    lemma_base_name_of_stored_path(dir, id);
}

} // verus!
