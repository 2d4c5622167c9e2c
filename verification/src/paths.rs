//! Paths as text: the final component, its extension, and joining.

use crate::text::opt_view;
use vstd::prelude::*;
use vstd::string::*;

verus! {

/// The final component of a path as `std::path::Path::file_name` gives it on
/// the platform the library is built for, `None` where the path has none (it
/// is empty, the root, or ends in `..`).
pub uninterp spec fn path_file_name(path: Seq<char>) -> Option<Seq<char>>;

/// Calls `std::path::Path::file_name` on the path and hands the component back
/// as text. The contract claims only that the result is the named final
/// component of the argument; a component of a UTF-8 path is UTF-8 itself.
#[verifier::external_body]
pub(crate) fn file_name(path: &str) -> (r: Option<String>)
    ensures
        opt_view(r) == path_file_name(path@),
{
    match std::path::Path::new(path).file_name() {
        Some(name) => match name.to_str() {
            Some(text) => Some(text.to_string()),
            None => None,
        },
        None => None,
    }
}

/// Calls `std::path::Path::canonicalize`, which resolves symlinks against the
/// file system, and hands the absolute form back as text, `None` where the
/// path cannot be resolved. The result depends on what is on disk, so the
/// contract claims nothing of it.
#[verifier::external_body]
pub(crate) fn canonical_form(path: &str) -> (r: Option<String>) {
    match std::path::Path::new(path).canonicalize() {
        Ok(resolved) => match resolved.to_str() {
            Some(text) => Some(text.to_string()),
            None => None,
        },
        Err(_) => None,
    }
}

/// The position of the last `.` in `s`, or -1 where it holds none.
pub open spec fn last_dot(s: Seq<char>) -> int
    decreases s.len(),
{
    if s.len() == 0 {
        -1
    } else if s.last() == '.' {
        s.len() - 1
    } else {
        last_dot(s.drop_last())
    }
}

/// No `.` occurs in `s`.
pub open spec fn dot_free(s: Seq<char>) -> bool {
    forall|i: int| 0 <= i < s.len() ==> s[i] != '.'
}

/// What `last_dot` finds is a position of the text that holds a `.`.
pub proof fn lemma_last_dot(s: Seq<char>)
    ensures
        -1 <= last_dot(s) < s.len(),
        last_dot(s) >= 0 ==> s[last_dot(s)] == '.',
    decreases s.len(),
{
    if s.len() > 0 && s.last() != '.' {
        lemma_last_dot(s.drop_last());
    }
}

/// After a `.` that a text without one follows, that `.` is the last.
pub proof fn lemma_last_dot_before_tail(head: Seq<char>, tail: Seq<char>)
    requires
        dot_free(tail),
    ensures
        last_dot(head + seq!['.'] + tail) == head.len(),
        last_dot(tail) == -1,
    decreases tail.len(),
{
    let s = head + seq!['.'] + tail;
    if tail.len() > 0 {
        assert(s.last() == tail.last());
        assert(s.drop_last() =~= head + seq!['.'] + tail.drop_last());
        lemma_last_dot_before_tail(head, tail.drop_last());
    } else {
        assert(s.last() == '.');
    }
}

/// The position of the last `.` in a text.
pub fn find_last_dot(s: &str) -> (r: Option<usize>)
    ensures
        match r {
            Some(d) => d == last_dot(s@),
            None => last_dot(s@) == -1,
        },
{
    let mut i: usize = s.unicode_len();
    proof {
        assert(s@.take(i as int) =~= s@);
    }
    while i > 0
        invariant
            i <= s@.len(),
            last_dot(s@) == last_dot(s@.take(i as int)),
        decreases i,
    {
        let c = s.get_char(i - 1);
        proof {
            assert(s@.take(i as int).last() == s@[i - 1]);
            assert(s@.take(i as int).drop_last() =~= s@.take(i - 1));
        }
        if c == '.' {
            return Some(i - 1);
        }
        i -= 1;
    }
    None
}

/// The extension of a final component: what follows its last `.`, unless that
/// `.` is missing or opens the name.
pub open spec fn extension_of(name: Seq<char>) -> Option<Seq<char>> {
    if last_dot(name) >= 1 {
        Some(name.skip(last_dot(name) + 1))
    } else {
        None
    }
}

/// The extension of a final component.
pub fn name_extension(name: &str) -> (r: Option<String>)
    ensures
        opt_view(r) == extension_of(name@),
{
    proof {
        lemma_last_dot(name@);
    }
    let n = name.unicode_len();
    match find_last_dot(name) {
        Some(d) => {
            if d >= 1 {
                let ext = name.substring_char(d + 1, n);
                assert(ext@ =~= name@.skip(d + 1));
                Some(String::from_str(ext))
            } else {
                None
            }
        },
        None => None,
    }
}

/// A directory and a relative name as one path: a `/` stands between them
/// unless the directory is empty or already ends in one.
pub open spec fn joined_path(dir: Seq<char>, name: Seq<char>) -> Seq<char> {
    if dir.len() == 0 || dir.last() == '/' {
        dir + name
    } else {
        dir + seq!['/'] + name
    }
}

/// Puts a relative name below a directory.
pub fn join_path(dir: &str, name: &str) -> (r: String)
    ensures
        r@ == joined_path(dir@, name@),
{
    let n = dir.unicode_len();
    let mut out = String::from_str(dir);
    if n > 0 && dir.get_char(n - 1) != '/' {
        proof {
            reveal_strlit("/");
            assert("/"@ =~= seq!['/']);
        }
        out.append("/");
    }
    out.append(name);
    out
}

} // verus!
