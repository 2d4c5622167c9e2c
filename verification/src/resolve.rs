//! Resolution: from the names of candidate tools to one that is installed in
//! a trusted place.

use crate::error::{DispatchError, ErrorView};
use crate::paths::canonical_form;
use crate::text::{opt_view, owned, views};
use crate::trust::{is_trusted_resolved, trusted_given, Platform};
use vstd::prelude::*;
use vstd::string::*;

verus! {

/// What a look at the host found out about one candidate tool.
#[derive(Clone, Debug, PartialEq, Eq)]
pub struct Probe {
    /// Where the tool was found on the search path, if it was.
    pub located: Option<String>,
    /// The canonical, symlink-free form of that place, if it has one.
    pub canonical: Option<String>,
}

/// The content of a `Probe`.
pub struct ProbeView {
    pub located: Option<Seq<char>>,
    pub canonical: Option<Seq<char>>,
}

impl View for Probe {
    type V = ProbeView;

    open spec fn view(&self) -> ProbeView {
        ProbeView { located: opt_view(self.located), canonical: opt_view(self.canonical) }
    }
}

/// A tool can be used when it was found and its canonical place is trusted.
pub open spec fn usable(platform: Platform, probe: ProbeView) -> bool {
    probe.located is Some && trusted_given(platform, probe.canonical)
}

/// `i` is the first position of `probes` whose tool can be used.
pub open spec fn first_usable(platform: Platform, probes: Seq<Probe>, i: int) -> bool {
    &&& 0 <= i < probes.len()
    &&& usable(platform, probes[i]@)
    &&& forall|j: int| 0 <= j < i ==> !usable(platform, #[trigger] probes[j]@)
}

/// No tool of `probes` can be used.
pub open spec fn none_usable(platform: Platform, probes: Seq<Probe>) -> bool {
    forall|j: int| 0 <= j < probes.len() ==> !usable(platform, #[trigger] probes[j]@)
}

/// Calls `which::which`, which searches the directories of the search path
/// for an executable of that name, and hands the place back as text, `None`
/// where it finds none. The result depends on the environment and the disk,
/// so the contract claims nothing of it.
#[verifier::external_body]
pub(crate) fn find_on_path(name: &str) -> (r: Option<String>) {
    match which::which(name) {
        Ok(place) => match place.to_str() {
            Some(text) => Some(text.to_string()),
            None => None,
        },
        Err(_) => None,
    }
}

/// Looks for one tool on the host.
pub fn probe_binary(name: &str) -> (r: Probe)
    ensures
        r.located is None ==> r.canonical is None,
{
    let located = find_on_path(name);
    let canonical = match &located {
        Some(path) => canonical_form(path.as_str()),
        None => None,
    };
    Probe { located, canonical }
}

/// Looks for each tool on the host, in order.
pub fn probe_binaries(names: &Vec<&'static str>) -> (r: Vec<Probe>)
    ensures
        r@.len() == names@.len(),
{
    let mut out: Vec<Probe> = Vec::new();
    let mut i: usize = 0;
    while i < names.len()
        invariant
            i <= names.len(),
            out@.len() == i,
        decreases names.len() - i,
    {
        out.push(probe_binary(names[i]));
        i += 1;
    }
    out
}

/// Whether the probed tool can be used.
pub fn is_usable(platform: Platform, probe: &Probe) -> (r: bool)
    ensures
        r == usable(platform, probe@),
{
    probe.located.is_some() && is_trusted_resolved(platform, &probe.canonical)
}

/// The error that names the formats and every candidate tool.
pub fn no_trusted_tool(formats: &Vec<&'static str>, names: &Vec<&'static str>) -> (r:
    DispatchError)
    ensures
        r@ == (ErrorView::NoTrustedTool { formats: views(formats@), candidates: views(names@) }),
{
    DispatchError::NoTrustedTool { formats: owned(formats), candidates: owned(names) }
}

/// Picks the place of the first tool that can be used. Where none can, the
/// error names the formats and every candidate.
pub fn select_binary(
    platform: Platform,
    formats: &Vec<&'static str>,
    names: &Vec<&'static str>,
    probes: &Vec<Probe>,
) -> (r: Result<String, DispatchError>)
    ensures
        match r {
            Ok(path) => exists|i: int|
                first_usable(platform, probes@, i) && Some(path@) == (#[trigger] probes@[i])@.located,
            Err(e) => none_usable(platform, probes@) && e@ == (ErrorView::NoTrustedTool {
                formats: views(formats@),
                candidates: views(names@),
            }),
        },
{
    let mut i: usize = 0;
    while i < probes.len()
        invariant
            i <= probes.len(),
            forall|j: int| 0 <= j < i ==> !usable(platform, #[trigger] probes@[j]@),
        decreases probes.len() - i,
    {
        if is_usable(platform, &probes[i]) {
            match &probes[i].located {
                Some(path) => {
                    assert(first_usable(platform, probes@, i as int));
                    return Ok(path.clone());
                },
                None => {},
            }
        }
        i += 1;
    }
    Err(no_trusted_tool(formats, names))
}

/// Where exactly one tool can be used, that one is the first that can.
pub proof fn lemma_only_usable_is_selected(platform: Platform, probes: Seq<Probe>, only: int, i: int)
    requires
        0 <= only < probes.len(),
        usable(platform, probes[only]@),
        forall|j: int| 0 <= j < probes.len() && j != only ==> !usable(platform, #[trigger] probes[j]@),
    ensures
        first_usable(platform, probes, only),
        first_usable(platform, probes, i) ==> i == only,
{
}

/// On a platform without an allow-list no tool can be used.
pub proof fn lemma_unknown_platform_uses_nothing(probes: Seq<Probe>)
    ensures
        none_usable(Platform::Other, probes),
{
}

} // verus!
