//! Dispatch of a batch of files: every file is resolved before any is
//! unpacked.

use crate::error::{DispatchError, ErrorView};
use crate::extractor::Extractor;
use crate::key::{last_component, lemma_compound_suffix_key, lemma_single_suffix_key, path_key};
use crate::paths::{dot_free, path_file_name};
use crate::kind::ExtractorKind;
use crate::text::lowercased;
use crate::registry::{get_extractor, lemma_registration_takes_over, owner, with_keys, Registry};
use crate::resolve::{
    first_usable, lemma_unknown_platform_uses_nothing, none_usable, probe_binaries, select_binary,
    usable, Probe,
};
use crate::trust::Platform;
use vstd::prelude::*;
use vstd::string::*;

verus! {

/// The adapter that a registry's content gives to a path.
pub open spec fn adapter_for(content: Map<Seq<char>, ExtractorKind>, path: Seq<char>) -> Option<
    ExtractorKind,
> {
    match path_key(path) {
        Some(k) => owner(content, k),
        None => None,
    }
}

/// A file whose name ends in `tar.` and a dot-free suffix goes to the owner
/// of the compound key, whoever owns the key of the suffix alone.
pub proof fn lemma_compound_key_decides_adapter(
    content: Map<Seq<char>, ExtractorKind>,
    path: Seq<char>,
    stem: Seq<char>,
    suffix: Seq<char>,
)
    requires
        path_file_name(path) == Some(stem + "tar."@ + suffix),
        dot_free(suffix),
        stem.len() == 0 || stem.last() == '.',
    ensures
        adapter_for(content, path) == owner(content, lowercased("tar."@ + suffix)),
{
    lemma_compound_suffix_key(stem, suffix);
}

/// A file whose name ends in `.` and a dot-free suffix, after a component
/// other than `tar`, goes to the owner of the suffix in lower case, however
/// the name is cased.
pub proof fn lemma_single_key_decides_adapter(
    content: Map<Seq<char>, ExtractorKind>,
    path: Seq<char>,
    stem: Seq<char>,
    suffix: Seq<char>,
)
    requires
        path_file_name(path) == Some(stem + seq!['.'] + suffix),
        dot_free(suffix),
        last_component(stem) != "tar"@,
    ensures
        adapter_for(content, path) == owner(content, lowercased(suffix)),
{
    lemma_single_suffix_key(stem, suffix);
}

/// Right after an adapter has registered, a file whose suffix is one of its
/// extensions, in whatever case the lower-case forms agree, reaches it.
pub proof fn lemma_registered_extension_is_reached(
    content: Map<Seq<char>, ExtractorKind>,
    kind: ExtractorKind,
    i: int,
    path: Seq<char>,
    stem: Seq<char>,
    suffix: Seq<char>,
)
    requires
        0 <= i < kind.extensions().len(),
        path_file_name(path) == Some(stem + seq!['.'] + suffix),
        dot_free(suffix),
        last_component(stem) != "tar"@,
        lowercased(suffix) == lowercased(kind.extensions()[i]),
    ensures
        adapter_for(with_keys(content, kind.extensions(), kind), path) == Some(kind),
{
    lemma_single_suffix_key(stem, suffix);
    lemma_registration_takes_over(content, kind.extensions(), kind, i);
}

/// The error for a file that no adapter answers for.
pub fn unsupported(file: &str) -> (r: DispatchError)
    ensures
        r@ == (ErrorView::UnsupportedFormat { file: file@ }),
{
    DispatchError::UnsupportedFormat { file: String::from_str(file) }
}

/// The adapter for one file, or the error that names the file.
pub fn adapter_or_error(registry: &Registry, file: &str) -> (r: Result<ExtractorKind, DispatchError>)
    requires
        registry.wf(),
    ensures
        match r {
            Ok(kind) => adapter_for(registry@, file@) == Some(kind),
            Err(e) => adapter_for(registry@, file@) is None && e@ == (ErrorView::UnsupportedFormat {
                file: file@,
            }),
        },
{
    match get_extractor(registry, file) {
        Some(kind) => Ok(kind),
        None => Err(unsupported(file)),
    }
}

/// What was found on the host for the file at position `i`: its probes, or
/// none where the list of findings is shorter than the batch.
pub open spec fn findings(probes: Seq<Vec<Probe>>, i: int) -> Seq<Probe> {
    if 0 <= i < probes.len() {
        probes[i]@
    } else {
        Seq::empty()
    }
}

/// A file fails the check of a batch when no adapter answers for it, or when
/// none of the tools found for it can be used.
pub open spec fn file_fails(
    content: Map<Seq<char>, ExtractorKind>,
    platform: Platform,
    file: Seq<char>,
    found: Seq<Probe>,
) -> bool {
    adapter_for(content, file) is None || none_usable(platform, found)
}

/// Every file of the batch passes the check.
pub open spec fn batch_passes(
    content: Map<Seq<char>, ExtractorKind>,
    platform: Platform,
    files: Seq<String>,
    probes: Seq<Vec<Probe>>,
) -> bool {
    forall|i: int|
        0 <= i < files.len() ==> !file_fails(
            content,
            platform,
            (#[trigger] files[i])@,
            findings(probes, i),
        )
}

/// The file at position `i` is the first of the batch that fails the check.
pub open spec fn first_failure(
    content: Map<Seq<char>, ExtractorKind>,
    platform: Platform,
    files: Seq<String>,
    probes: Seq<Vec<Probe>>,
    i: int,
) -> bool {
    &&& 0 <= i < files.len()
    &&& file_fails(content, platform, files[i]@, findings(probes, i))
    &&& forall|j: int|
        0 <= j < i ==> !file_fails(content, platform, (#[trigger] files[j])@, findings(probes, j))
}

/// Decides a batch from what was found on the host: `probes` holds, for each
/// file in turn, one probe for each candidate tool of its adapter. The batch
/// passes exactly when every file has an adapter and a usable tool, and the
/// result is then the adapter of each file, in input order. Otherwise it is
/// the error of the first file that fails: that no adapter answers for it,
/// or that none of its adapter's tools can be used.
pub fn settle_batch(
    registry: &Registry,
    platform: Platform,
    files: &Vec<String>,
    probes: &Vec<Vec<Probe>>,
) -> (r: Result<Vec<ExtractorKind>, DispatchError>)
    requires
        registry.wf(),
    ensures
        r is Ok <==> batch_passes(registry@, platform, files@, probes@),
        match r {
            Ok(kinds) => {
                &&& kinds@.len() == files@.len()
                &&& forall|i: int|
                    0 <= i < files@.len() ==> adapter_for(registry@, #[trigger] files@[i]@) == Some(
                        kinds@[i],
                    )
            },
            Err(e) => exists|i: int|
                #[trigger] first_failure(registry@, platform, files@, probes@, i) && batch_failure(
                    registry@,
                    platform,
                    files@[i]@,
                    e@,
                ),
        },
{
    let none: Vec<Probe> = Vec::new();
    let mut kinds: Vec<ExtractorKind> = Vec::new();
    let mut i: usize = 0;
    while i < files.len()
        invariant
            registry.wf(),
            i <= files.len(),
            kinds@.len() == i,
            none@.len() == 0,
            forall|j: int|
                0 <= j < i ==> adapter_for(registry@, #[trigger] files@[j]@) == Some(kinds@[j]),
            forall|j: int|
                0 <= j < i ==> !file_fails(
                    registry@,
                    platform,
                    (#[trigger] files@[j])@,
                    findings(probes@, j),
                ),
        decreases files.len() - i,
    {
        let kind = match adapter_or_error(registry, files[i].as_str()) {
            Ok(kind) => kind,
            Err(e) => {
                assert(first_failure(registry@, platform, files@, probes@, i as int));
                return Err(e);
            },
        };
        let names = kind.binary_names(platform);
        let formats = kind.file_extensions();
        let found = if i < probes.len() {
            &probes[i]
        } else {
            &none
        };
        assert(found@ =~= findings(probes@, i as int));
        match select_binary(platform, &formats, &names, found) {
            Ok(_) => {
                assert(!none_usable(platform, found@)) by {
                    let at = choose|at: int| first_usable(platform, found@, at);
                    assert(usable(platform, found@[at]@));
                }
            },
            Err(e) => {
                assert(first_failure(registry@, platform, files@, probes@, i as int));
                return Err(e);
            },
        }
        kinds.push(kind);
        i += 1;
    }
    Ok(kinds)
}

/// Checks a whole batch before anything is unpacked: looks on the host for
/// the candidate tools of each file's adapter, then lets `settle_batch`
/// decide on what was found. The result is the adapter of each file, in
/// input order, or the error of the first file that fails: every file
/// before it has an adapter. A file without an adapter fails the batch
/// whatever the host holds.
pub fn resolve_batch(registry: &Registry, platform: Platform, files: &Vec<String>) -> (r: Result<
    Vec<ExtractorKind>,
    DispatchError,
>)
    requires
        registry.wf(),
    ensures
        match r {
            Ok(kinds) => {
                &&& kinds@.len() == files@.len()
                &&& forall|i: int|
                    0 <= i < files@.len() ==> adapter_for(registry@, #[trigger] files@[i]@) == Some(
                        kinds@[i],
                    )
            },
            Err(e) => exists|i: int|
                {
                    &&& 0 <= i < files@.len()
                    &&& batch_failure(registry@, platform, #[trigger] files@[i]@, e@)
                    &&& forall|j: int|
                        0 <= j < i ==> adapter_for(registry@, #[trigger] files@[j]@) is Some
                },
        },
        (exists|i: int| 0 <= i < files@.len() && adapter_for(registry@, #[trigger] files@[i]@) is None)
            ==> r is Err,
        platform == Platform::Other && files@.len() > 0 ==> r is Err,
{
    let mut probes: Vec<Vec<Probe>> = Vec::new();
    let mut i: usize = 0;
    while i < files.len()
        invariant
            registry.wf(),
            i <= files.len(),
            probes@.len() == i,
        decreases files.len() - i,
    {
        let found = match get_extractor(registry, files[i].as_str()) {
            Some(kind) => probe_binaries(&kind.binary_names(platform)),
            None => Vec::new(),
        };
        probes.push(found);
        i += 1;
    }
    let r = settle_batch(registry, platform, files, &probes);
    proof {
        if files@.len() > 0 && platform == Platform::Other {
            lemma_unknown_platform_uses_nothing(findings(probes@, 0));
            assert(file_fails(registry@, platform, files@[0]@, findings(probes@, 0)));
        }
        if r is Err {
            let e = r->Err_0;
            let at = choose|at: int|
                #[trigger] first_failure(registry@, platform, files@, probes@, at) && batch_failure(
                    registry@,
                    platform,
                    files@[at]@,
                    e@,
                );
            assert(batch_failure(registry@, platform, files@[at]@, e@));
        }
    }
    r
}

/// A batch that holds a file for which no adapter answers does not pass,
/// whatever was found on the host for it and for the others.
pub proof fn lemma_unsupported_file_fails_batch(
    content: Map<Seq<char>, ExtractorKind>,
    platform: Platform,
    files: Seq<String>,
    probes: Seq<Vec<Probe>>,
    i: int,
)
    requires
        0 <= i < files.len(),
        adapter_for(content, files[i]@) is None,
    ensures
        !batch_passes(content, platform, files, probes),
{
}

/// `error` is one that `file` can fail a batch with: no adapter answers for
/// it, or its adapter has no usable tool.
pub open spec fn batch_failure(
    content: Map<Seq<char>, ExtractorKind>,
    platform: Platform,
    file: Seq<char>,
    error: ErrorView,
) -> bool {
    match adapter_for(content, file) {
        None => error == (ErrorView::UnsupportedFormat { file }),
        Some(kind) => error == (ErrorView::NoTrustedTool {
            formats: kind.extensions(),
            candidates: kind.candidates(platform),
        }),
    }
}

} // verus!
