//! Splitting slash-separated paths into parent and file name.
//!
//! Move and link actions resolve a path's parent directory on their own
//! (the parent is opened as a capability, the file name renamed through
//! it), so the transaction engine needs the split, and an exact account
//! of when a path has no usable file-name component.
//!
//! The split is deliberately plainer than `std`'s path handling: a
//! trailing slash is not stripped, so a path ending in `/` has no
//! file-name component and an operation that needs one rejects it; a
//! bare name's parent is `.` and a root entry's parent is `/`.

use vstd::prelude::*;
use vstd::string::{StrSliceExecFns, StringExecFns};

verus! {

/// An absolute path: one that names the filesystem root rather than an
/// entry of the confining directory.
pub open spec fn is_absolute_path(s: Seq<char>) -> bool {
    s.len() > 0 && s[0] == '/'
}

/// The index of the last `/`, or `-1` when the path holds none.
pub open spec fn last_slash_index(s: Seq<char>) -> int
    decreases s.len(),
{
    if s.len() == 0 {
        -1
    } else if s.last() == '/' {
        s.len() - 1
    } else {
        last_slash_index(s.drop_last())
    }
}

/// The directory component a path's parent is opened by: everything
/// before the last `/`, with `.` for a bare name and `/` for an entry of
/// the root directory.
pub open spec fn parent_dir_spec(s: Seq<char>) -> Seq<char> {
    if last_slash_index(s) == -1 {
        seq!['.']
    } else if last_slash_index(s) == 0 {
        seq!['/']
    } else {
        s.take(last_slash_index(s))
    }
}

/// The file-name component: everything after the last `/`, or `None`
/// when that is empty.
pub open spec fn file_name_spec(s: Seq<char>) -> Option<Seq<char>> {
    if s.len() == last_slash_index(s) + 1 {
        Option::None
    } else {
        Option::Some(s.skip(last_slash_index(s) + 1))
    }
}

/// Bounds of `last_slash_index`: it is `-1` or a position holding `/`,
/// and nothing after it is a `/`.
pub proof fn lemma_last_slash_index(s: Seq<char>)
    ensures
        -1 <= last_slash_index(s) < s.len(),
        last_slash_index(s) >= 0 ==> s[last_slash_index(s)] == '/',
        forall|j: int| last_slash_index(s) < j < s.len() ==> s[j] != '/',
    decreases s.len(),
{
    if s.len() > 0 && s.last() != '/' {
        lemma_last_slash_index(s.drop_last());
        assert forall|j: int| last_slash_index(s) < j < s.len() implies s[j] != '/' by {
            if j < s.len() - 1 {
                assert(s[j] == s.drop_last()[j]);
            }
        }
    }
}

/// Split a path into the directory to open its parent by and its
/// file-name component.
pub fn split_path(path: &str) -> (r: (String, Option<String>))
    ensures
        r.0@ == parent_dir_spec(path@),
        r.1 is Some <==> file_name_spec(path@) is Some,
        r.1 matches Some(name) ==> file_name_spec(path@) == Some(name@),
{
    proof {
        lemma_last_slash_index(path@);
    }
    let len: usize = path.unicode_len();
    let mut i: usize = len;
    while i > 0 && path.get_char(i - 1) != '/'
        invariant
            i <= len,
            len == path@.len(),
            forall|j: int| i <= j < len ==> path@[j] != '/',
        decreases i,
    {
        i = i - 1;
    }
    proof {
        if i == 0 {
            assert(last_slash_index(path@) == -1);
        } else {
            assert(path@[i - 1] == '/');
            assert(last_slash_index(path@) == i - 1);
        }
    }
    let parent: String = if i == 0 {
        String::from_str(".")
    } else if i == 1 {
        String::from_str("/")
    } else {
        String::from_str(path.substring_char(0, i - 1))
    };
    let name: Option<String> = if i == len {
        Option::None
    } else {
        Option::Some(String::from_str(path.substring_char(i, len)))
    };
    proof {
        reveal_strlit(".");
        reveal_strlit("/");
    }
    (parent, name)
}

/// Join a directory path and an entry name with a `/`.
pub fn join_path(dir: &str, name: &str) -> (r: String)
    ensures
        r@ == dir@ + seq!['/'] + name@,
{
    let mut r = String::from_str(dir);
    r.append("/");
    r.append(name);
    proof {
        reveal_strlit("/");
        assert(r@ =~= dir@ + seq!['/'] + name@);
    }
    r
}

} // verus!
