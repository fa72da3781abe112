//! Character classes of identifiers, and the alphabet of the random suffix.

use vstd::prelude::*;
use vstd::std_specs::iter::IteratorSpec;
use vstd::string::StrSliceExecFns;

verus! {

/// The 62 symbols of the random suffix, in the order in which a draw selects them.
pub const BASE62: &'static str = "0123456789ABCDEFGHIJKLMNOPQRSTUVWXYZabcdefghijklmnopqrstuvwxyz";

/// One of the 62 symbols `0-9`, `A-Z`, `a-z`.
pub open spec fn is_alphanumeric(c: char) -> bool {
    ('0' <= c && c <= '9') || ('A' <= c && c <= 'Z') || ('a' <= c && c <= 'z')
}

/// A character that validation lets through: alphanumeric, or the padding `=`.
pub open spec fn is_accepted(c: char) -> bool {
    is_alphanumeric(c) || c == '='
}

/// A character that is safe in a path segment, and that a generated
/// identifier may hold: what validation accepts, and the two further symbols
/// `-` and `_` of the URL-safe encoding.
pub open spec fn is_safe(c: char) -> bool {
    is_accepted(c) || c == '-' || c == '_'
}

/// A control character: below the space, or from DEL to U+009F.
pub open spec fn is_control(c: char) -> bool {
    c < ' ' || ('\u{7f}' <= c && c <= '\u{9f}')
}

/// A character that must never reach the file system as part of a name.
pub open spec fn is_hostile(c: char) -> bool {
    c == '/' || c == '\\' || is_control(c)
}

/// Every character of `s` is alphanumeric.
pub open spec fn all_alphanumeric(s: Seq<char>) -> bool {
    forall|i: int| 0 <= i < s.len() ==> is_alphanumeric(#[trigger] s[i])
}

/// Validation lets every character of `s` through.
pub open spec fn all_accepted(s: Seq<char>) -> bool {
    forall|i: int| 0 <= i < s.len() ==> is_accepted(#[trigger] s[i])
}

/// Every character of `s` is safe in a path segment.
pub open spec fn all_safe(s: Seq<char>) -> bool {
    forall|i: int| 0 <= i < s.len() ==> is_safe(#[trigger] s[i])
}

/// Some character of `s` is hostile.
pub open spec fn has_hostile_char(s: Seq<char>) -> bool {
    exists|i: int| 0 <= i < s.len() && is_hostile(#[trigger] s[i])
}

/// The suffix symbol that a draw selects: the draw, reduced modulo 62, indexes the alphabet.
pub open spec fn base62_of(draw: nat) -> char {
    BASE62@[(draw % 62) as int]
}

/// The suffix alphabet holds 62 symbols, each alphanumeric and no two alike.
pub proof fn lemma_base62_alphabet()
    ensures
        BASE62@.len() == 62,
        all_alphanumeric(BASE62@),
        vstd::utf8::is_ascii_chars(BASE62@),
        forall|i: int, j: int| 0 <= i < j < 62 ==> BASE62@[i] != BASE62@[j],
{
    reveal_strlit("0123456789ABCDEFGHIJKLMNOPQRSTUVWXYZabcdefghijklmnopqrstuvwxyz");
}

/// The three classes are nested, and no safe character is hostile or a dot.
pub proof fn lemma_safe_is_not_hostile(c: char)
    ensures
        is_alphanumeric(c) ==> is_accepted(c),
        is_accepted(c) ==> is_safe(c),
        is_safe(c) ==> !is_hostile(c) && c != '.',
{
}

/// Whether `c` is one of `0-9`, `A-Z`, `a-z`.
pub fn is_alphanumeric_char(c: char) -> (r: bool)
    ensures
        r == is_alphanumeric(c),
{
    ('0' <= c && c <= '9') || ('A' <= c && c <= 'Z') || ('a' <= c && c <= 'z')
}

/// Whether validation lets `c` through.
pub fn is_accepted_char(c: char) -> (r: bool)
    ensures
        r == is_accepted(c),
{
    is_alphanumeric_char(c) || c == '='
}

/// Whether `c` is safe in a path segment.
pub fn is_safe_char(c: char) -> (r: bool)
    ensures
        r == is_safe(c),
{
    is_accepted_char(c) || c == '-' || c == '_'
}

/// Whether validation lets every character of `text` through.
pub fn is_accepted_text(text: &str) -> (r: bool)
    ensures
        r == all_accepted(text@),
{
    let mut chars = text.chars();
    let ghost mut i: int = 0;
    loop
        invariant_except_break
            0 <= i <= text@.len(),
            chars.remaining() == text@.skip(i),
            forall|j: int| 0 <= j < i ==> is_accepted(#[trigger] text@[j]),
        ensures
            all_accepted(text@),
        decreases text@.len() - i,
    {
        match chars.next() {
            Some(c) => {
                if !is_accepted_char(c) {
                    assert(!is_accepted(text@[i]));
                    return false;
                }
                proof {
                    i = i + 1;
                }
            },
            None => {
                break ;
            },
        }
    }
    true
}

/// Whether every character of `text` is safe in a path segment.
pub fn is_safe_text(text: &str) -> (r: bool)
    ensures
        r == all_safe(text@),
{
    let mut chars = text.chars();
    let ghost mut i: int = 0;
    loop
        invariant_except_break
            0 <= i <= text@.len(),
            chars.remaining() == text@.skip(i),
            forall|j: int| 0 <= j < i ==> is_safe(#[trigger] text@[j]),
        ensures
            all_safe(text@),
        decreases text@.len() - i,
    {
        match chars.next() {
            Some(c) => {
                if !is_safe_char(c) {
                    assert(!is_safe(text@[i]));
                    return false;
                }
                proof {
                    i = i + 1;
                }
            },
            None => {
                break ;
            },
        }
    }
    true
}

/// The one-symbol text that `draw` selects from the suffix alphabet.
pub fn base62_symbol(draw: usize) -> (symbol: &'static str)
    ensures
        symbol@ == seq![base62_of(draw as nat)],
        is_alphanumeric(base62_of(draw as nat)),
{
    proof {
        lemma_base62_alphabet();
    }
    let k: usize = draw % 62;
    let symbol = BASE62.substring_ascii(k, k + 1);
    assert(symbol@ =~= seq![BASE62@[k as int]]);
    symbol
}

} // verus!
