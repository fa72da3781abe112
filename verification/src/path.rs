//! Paths of stored files: an upload directory, a separator and one segment.

use vstd::prelude::*;
use vstd::std_specs::iter::IteratorSpec;
use vstd::string::{StrSliceExecFns, StringExecFns};

use crate::charset::{all_safe, is_hostile, lemma_safe_is_not_hostile};

verus! {

/// The character that parts a directory from the name stored in it.
pub const SEPARATOR: char = '/';

/// The path of the file named `name` in the directory `dir`.
pub open spec fn stored_path(dir: Seq<char>, name: Seq<char>) -> Seq<char> {
    dir.push(SEPARATOR) + name
}

/// Where the last segment of `path` begins: behind its last separator, or at
/// the front where it has none.
pub open spec fn name_start(path: Seq<char>) -> int
    decreases path.len(),
{
    if path.len() == 0 {
        0
    } else if path.last() == SEPARATOR {
        path.len() as int
    } else {
        name_start(path.drop_last())
    }
}

/// The last segment of `path`: what follows its last separator.
pub open spec fn base_name(path: Seq<char>) -> Seq<char> {
    path.skip(name_start(path))
}

/// A segment that names a file and nothing else: not empty, free of
/// separators, backslashes and control characters, and neither `.` nor `..`.
pub open spec fn is_plain_segment(s: Seq<char>) -> bool {
    &&& s.len() > 0
    &&& forall|i: int| 0 <= i < s.len() ==> !is_hostile(#[trigger] s[i])
    &&& s != seq!['.']
    &&& s != seq!['.', '.']
}

/// `path` lies directly in `dir`: it is `dir`, a separator and one plain segment.
pub open spec fn is_child_of(path: Seq<char>, dir: Seq<char>) -> bool {
    &&& path.len() > dir.len() + 1
    &&& path.take(dir.len() as int) == dir
    &&& path[dir.len() as int] == SEPARATOR
    &&& is_plain_segment(path.skip(dir.len() as int + 1))
}

/// The last segment begins inside the path, holds no separator, and is
/// preceded by one unless it begins at the front.
pub proof fn lemma_name_start(path: Seq<char>)
    ensures
        0 <= name_start(path) <= path.len(),
        forall|i: int| name_start(path) <= i < path.len() ==> #[trigger] path[i] != SEPARATOR,
        name_start(path) > 0 ==> path[name_start(path) - 1] == SEPARATOR,
    decreases path.len(),
{
    if path.len() > 0 && path.last() != SEPARATOR {
        let front = path.drop_last();
        lemma_name_start(front);
        assert forall|i: int| name_start(path) <= i < path.len() implies #[trigger] path[i]
            != SEPARATOR by {
            if i < front.len() {
                assert(front[i] == path[i]);
            }
        }
    }
}

/// Appending a character moves the start of the last segment behind it if it
/// is a separator, and leaves it otherwise.
pub proof fn lemma_name_start_push(path: Seq<char>, c: char)
    ensures
        name_start(path.push(c)) == if c == SEPARATOR {
            path.len() as int + 1
        } else {
            name_start(path)
        },
{
    assert(path.push(c).drop_last() =~= path);
}

/// Text without a separator, appended to a path, leaves the start of the last
/// segment where it was.
pub proof fn lemma_name_start_append(path: Seq<char>, tail: Seq<char>)
    requires
        forall|i: int| 0 <= i < tail.len() ==> #[trigger] tail[i] != SEPARATOR,
    ensures
        name_start(path + tail) == name_start(path),
    decreases tail.len(),
{
    if tail.len() == 0 {
        assert(path + tail =~= path);
    } else {
        let front = tail.drop_last();
        lemma_name_start_append(path, front);
        lemma_name_start_push(path + front, tail.last());
        assert((path + front).push(tail.last()) =~= path + tail);
    }
}

/// The last segment of a stored path is the name it was stored under,
/// provided the name holds no separator.
pub proof fn lemma_base_name_of_stored_path(dir: Seq<char>, name: Seq<char>)
    requires
        forall|i: int| 0 <= i < name.len() ==> #[trigger] name[i] != SEPARATOR,
    ensures
        base_name(stored_path(dir, name)) == name,
{
    lemma_name_start_push(dir, SEPARATOR);
    lemma_name_start_append(dir.push(SEPARATOR), name);
    assert(stored_path(dir, name).skip(dir.len() as int + 1) =~= name);
}

/// A non-empty text of safe characters is a plain segment.
pub proof fn lemma_safe_is_plain(s: Seq<char>)
    requires
        s.len() > 0,
        all_safe(s),
    ensures
        is_plain_segment(s),
        forall|i: int| 0 <= i < s.len() ==> #[trigger] s[i] != SEPARATOR,
{
    assert forall|i: int| 0 <= i < s.len() implies !is_hostile(#[trigger] s[i]) && s[i] != '.'
        && s[i] != SEPARATOR by {
        lemma_safe_is_not_hostile(s[i]);
    }
    assert(s[0] != '.');
    assert(seq!['.'][0] == '.');
    assert(seq!['.', '.'][0] == '.');
}

/// A non-empty name of safe characters, stored in any directory, lies
/// directly in that directory.
pub proof fn lemma_stored_path_is_child(dir: Seq<char>, name: Seq<char>)
    requires
        name.len() > 0,
        all_safe(name),
    ensures
        is_child_of(stored_path(dir, name), dir),
{
    lemma_safe_is_plain(name);
    let path = stored_path(dir, name);
    assert(path.take(dir.len() as int) =~= dir);
    assert(path.skip(dir.len() as int + 1) =~= name);
}

/// The path of the file named `name` in the directory `dir`.
pub fn join(dir: &str, name: &str) -> (path: String)
    ensures
        path@ == stored_path(dir@, name@),
{
    proof {
        reveal_strlit("/");
    }
    let mut path = String::from_str(dir);
    path.append("/");
    path.append(name);
    assert(path@ =~= stored_path(dir@, name@));
    path
}

/// The last segment of `path`.
pub fn file_name(path: &str) -> (name: &str)
    ensures
        name@ == base_name(path@),
{
    let n: usize = path.unicode_len();
    let mut chars = path.chars();
    let mut i: usize = 0;
    let mut start: usize = 0;
    proof {
        assert(path@.take(0) =~= Seq::<char>::empty());
    }
    loop
        invariant_except_break
            n == path@.len(),
            i <= n,
            chars.remaining() == path@.skip(i as int),
            start == name_start(path@.take(i as int)),
        ensures
            start == name_start(path@),
            n == path@.len(),
        decreases n - i,
    {
        match chars.next() {
            Some(c) => {
                proof {
                    lemma_name_start_push(path@.take(i as int), c);
                    assert(path@.take(i as int).push(c) =~= path@.take(i + 1));
                }
                i = i + 1;
                if c == SEPARATOR {
                    start = i;
                }
            },
            None => {
                proof {
                    assert(path@.take(i as int) =~= path@);
                }
                break ;
            },
        }
    }
    proof {
        lemma_name_start(path@);
    }
    let name = path.substring_char(start, n);
    assert(name@ =~= base_name(path@));
    name
}

} // verus!
