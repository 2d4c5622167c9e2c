//! Trust in an executable by where it lives: only system directories count.

use crate::paths::canonical_form;
use crate::text::{str_equal, views};
use vstd::prelude::*;
use vstd::string::*;

verus! {

/// The family of operating system that the allow-list is chosen by.
#[derive(Clone, Copy, Debug, PartialEq, Eq, Structural)]
pub enum Platform {
    Linux,
    MacOs,
    Bsd,
    Other,
}

/// The system directories whose executables are trusted on a platform. An
/// unknown platform trusts none.
pub open spec fn allow_list(platform: Platform) -> Seq<Seq<char>> {
    match platform {
        Platform::Linux | Platform::Bsd => seq![
            "/bin"@,
            "/sbin"@,
            "/usr/bin"@,
            "/usr/sbin"@,
            "/usr/local/bin"@,
            "/usr/local/sbin"@,
        ],
        Platform::MacOs => seq![
            "/usr/bin"@,
            "/usr/sbin"@,
            "/bin"@,
            "/sbin"@,
            "/usr/local/bin"@,
            "/usr/local/sbin"@,
            "/opt/homebrew/bin"@,
            "/opt/homebrew/sbin"@,
            "/opt/local/bin"@,
            "/opt/local/sbin"@,
        ],
        Platform::Other => Seq::empty(),
    }
}

/// The allow-list of a platform.
pub fn trusted_dirs(platform: Platform) -> (r: Vec<&'static str>)
    ensures
        views(r@) == allow_list(platform),
{
    let dirs: Vec<&'static str> = match platform {
        Platform::Linux | Platform::Bsd => vec![
            "/bin",
            "/sbin",
            "/usr/bin",
            "/usr/sbin",
            "/usr/local/bin",
            "/usr/local/sbin",
        ],
        Platform::MacOs => vec![
            "/usr/bin",
            "/usr/sbin",
            "/bin",
            "/sbin",
            "/usr/local/bin",
            "/usr/local/sbin",
            "/opt/homebrew/bin",
            "/opt/homebrew/sbin",
            "/opt/local/bin",
            "/opt/local/sbin",
        ],
        Platform::Other => Vec::new(),
    };
    assert(views(dirs@) =~= allow_list(platform));
    dirs
}

/// A canonical path lies in or below a directory: it is the directory, or
/// continues it with a `/`. Whole components match, so `/binx` is not under
/// `/bin`.
pub open spec fn path_under(path: Seq<char>, dir: Seq<char>) -> bool {
    &&& dir.len() <= path.len()
    &&& path.take(dir.len() as int) == dir
    &&& (path.len() == dir.len() || path[dir.len() as int] == '/')
}

/// A canonical path lies under one of the platform's trusted directories.
pub open spec fn trusted_location(platform: Platform, canonical: Seq<char>) -> bool {
    exists|i: int|
        0 <= i < allow_list(platform).len() && path_under(canonical, #[trigger] allow_list(
            platform,
        )[i])
}

/// Whether a canonical path lies in or below a directory.
pub fn is_under(path: &str, dir: &str) -> (r: bool)
    ensures
        r == path_under(path@, dir@),
{
    let n = dir.unicode_len();
    let m = path.unicode_len();
    if m < n {
        return false;
    }
    let front = path.substring_char(0, n);
    assert(front@ =~= path@.take(n as int));
    if !str_equal(front, dir) {
        return false;
    }
    m == n || path.get_char(n) == '/'
}

/// Whether a canonical, symlink-free path names a trusted location.
pub fn is_trusted_canonical(platform: Platform, canonical: &str) -> (r: bool)
    ensures
        r == trusted_location(platform, canonical@),
{
    let dirs = trusted_dirs(platform);
    let mut i: usize = 0;
    while i < dirs.len()
        invariant
            i <= dirs.len(),
            views(dirs@) == allow_list(platform),
            forall|j: int| 0 <= j < i ==> !path_under(canonical@, #[trigger] allow_list(platform)[j]),
        decreases dirs.len() - i,
    {
        assert(views(dirs@)[i as int] == dirs@[i as int]@);
        if is_under(canonical, dirs[i]) {
            return true;
        }
        i += 1;
    }
    assert(views(dirs@).len() == dirs@.len());
    false
}

/// What holds of a path once its canonical form, if it has one, is known:
/// trusted exactly when the form exists and names a trusted location.
pub open spec fn trusted_given(platform: Platform, canonical: Option<Seq<char>>) -> bool {
    match canonical {
        Some(c) => trusted_location(platform, c),
        None => false,
    }
}

/// The trust decision for a path whose canonical form was already sought:
/// `None` stands for a path that could not be resolved.
pub fn is_trusted_resolved(platform: Platform, canonical: &Option<String>) -> (r: bool)
    ensures
        r == trusted_given(platform, crate::text::opt_view(*canonical)),
{
    match canonical {
        Some(c) => is_trusted_canonical(platform, c.as_str()),
        None => false,
    }
}

/// Whether the executable at `path` lives, once symlinks are resolved, under
/// a trusted system directory. A path that cannot be resolved is not trusted,
/// and on an unknown platform nothing is. The canonical form comes from the
/// file system; what is decided for each form it can have is stated at
/// `is_trusted_resolved`.
pub fn is_trusted_bin_path(platform: Platform, path: &str) -> (r: bool)
    ensures
        platform == Platform::Other ==> !r,
{
    let canonical = canonical_form(path);
    is_trusted_resolved(platform, &canonical)
}

/// On an unknown platform no location is trusted.
pub proof fn lemma_unknown_platform_trusts_nothing(canonical: Seq<char>)
    ensures
        !trusted_location(Platform::Other, canonical),
{
}

/// A path that has no canonical form is trusted on no platform.
pub proof fn lemma_unresolved_is_untrusted(platform: Platform)
    ensures
        !trusted_given(platform, None),
{
}

} // verus!
