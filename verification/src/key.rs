//! The key under which a file's format is looked up.

use crate::paths::{
    dot_free, file_name, find_last_dot, last_dot, lemma_last_dot, lemma_last_dot_before_tail,
    path_file_name,
};
use crate::text::{lowercased, opt_view, str_equal, to_lower};
use vstd::prelude::*;
use vstd::string::*;

verus! {

/// The part of a name after its last `.`; the whole name where it holds none.
pub open spec fn last_component(name: Seq<char>) -> Seq<char> {
    name.skip(last_dot(name) + 1)
}

/// The key of a file name before lower-casing: its last dot-separated
/// component, with `tar.` in front where the component before it is exactly
/// `tar`.
pub open spec fn raw_key(name: Seq<char>) -> Seq<char> {
    let d = last_dot(name);
    if d >= 0 && last_component(name.take(d)) == "tar"@ {
        "tar."@ + last_component(name)
    } else {
        last_component(name)
    }
}

/// The key of a file name: `raw_key`, lower-cased.
pub open spec fn extension_key(name: Seq<char>) -> Seq<char> {
    lowercased(raw_key(name))
}

/// The key of a path: that of its final component, where it has one.
pub open spec fn path_key(path: Seq<char>) -> Option<Seq<char>> {
    match path_file_name(path) {
        Some(name) => Some(extension_key(name)),
        None => None,
    }
}

/// The key of a file name before lower-casing.
pub fn raw_extension_key(name: &str) -> (r: String)
    ensures
        r@ == raw_key(name@),
{
    proof {
        lemma_last_dot(name@);
    }
    let n = name.unicode_len();
    match find_last_dot(name) {
        None => {
            assert(name@.skip(0) =~= name@);
            String::from_str(name)
        },
        Some(d) => {
            let last = name.substring_char(d + 1, n);
            let before = name.substring_char(0, d);
            proof {
                lemma_last_dot(before@);
                assert(last@ =~= name@.skip(d + 1));
                assert(before@ =~= name@.take(d as int));
            }
            let start: usize = match find_last_dot(before) {
                None => 0,
                Some(e) => e + 1,
            };
            let second = before.substring_char(start, d);
            assert(second@ =~= last_component(before@));
            if str_equal(second, "tar") {
                String::from_str("tar.").concat(last)
            } else {
                String::from_str(last)
            }
        },
    }
}

/// The extension key of a path: `None` where the path has no final component.
pub fn get_extension(path: &str) -> (r: Option<String>)
    ensures
        opt_view(r) == path_key(path@),
{
    match file_name(path) {
        Some(name) => {
            let raw = raw_extension_key(name.as_str());
            Some(to_lower(raw.as_str()))
        },
        None => None,
    }
}

/// A name that ends in `tar.` and a dot-free suffix has the compound key
/// `tar.` with that suffix, whatever else a key from the suffix alone would be.
pub proof fn lemma_compound_suffix_key(stem: Seq<char>, suffix: Seq<char>)
    requires
        dot_free(suffix),
        stem.len() == 0 || stem.last() == '.',
    ensures
        raw_key(stem + "tar."@ + suffix) == "tar."@ + suffix,
        extension_key(stem + "tar."@ + suffix) == lowercased("tar."@ + suffix),
{
    reveal_strlit("tar");
    reveal_strlit("tar.");
    let name = stem + "tar."@ + suffix;
    let head = stem + "tar"@;
    assert("tar."@ =~= "tar"@ + seq!['.']);
    assert(name =~= head + seq!['.'] + suffix);
    lemma_last_dot_before_tail(head, suffix);
    assert(name.take(head.len() as int) =~= head);
    assert(name.skip(head.len() as int + 1) =~= suffix);
    assert(dot_free("tar"@));
    if stem.len() == 0 {
        assert(head =~= "tar"@);
        lemma_last_dot_before_tail(Seq::empty(), "tar"@);
        assert(Seq::<char>::empty() + seq!['.'] + "tar"@ =~= seq!['.'] + "tar"@);
        lemma_dot_free_has_no_dot("tar"@);
        assert(head.skip(0) =~= head);
    } else {
        let front = stem.drop_last();
        assert(head =~= front + seq!['.'] + "tar"@);
        lemma_last_dot_before_tail(front, "tar"@);
        assert(head.skip(front.len() as int + 1) =~= "tar"@);
    }
}

/// A text without a `.` has no last one.
pub proof fn lemma_dot_free_has_no_dot(s: Seq<char>)
    requires
        dot_free(s),
    ensures
        last_dot(s) == -1,
    decreases s.len(),
{
    if s.len() > 0 {
        lemma_dot_free_has_no_dot(s.drop_last());
    }
}

/// A name that ends in `.` and a dot-free suffix, where the component before
/// is not `tar`, has that suffix as its key, lower-cased.
pub proof fn lemma_single_suffix_key(stem: Seq<char>, suffix: Seq<char>)
    requires
        dot_free(suffix),
        last_component(stem) != "tar"@,
    ensures
        raw_key(stem + seq!['.'] + suffix) == suffix,
        extension_key(stem + seq!['.'] + suffix) == lowercased(suffix),
{
    let name = stem + seq!['.'] + suffix;
    lemma_last_dot_before_tail(stem, suffix);
    assert(name.take(stem.len() as int) =~= stem);
    assert(name.skip(stem.len() as int + 1) =~= suffix);
}

} // verus!
