//! The health report: for each format, which of its tools the host offers.

use crate::extractor::Extractor;
use crate::registry::Registry;
use crate::resolve::{
    is_usable, lemma_unknown_platform_uses_nothing, probe_binaries, usable, Probe,
};
use crate::text::{string_views, views};
use crate::trust::Platform;
use vstd::prelude::*;
use vstd::string::*;

verus! {

/// Each candidate with the word on whether it can be used: it was probed,
/// found, and its canonical place is trusted.
pub fn availability(platform: Platform, names: &Vec<&'static str>, probes: &Vec<Probe>) -> (r: Vec<
    (String, bool),
>)
    ensures
        r@.len() == names@.len(),
        forall|i: int|
            0 <= i < names@.len() ==> (#[trigger] r@[i]).0@ == names@[i]@ && r@[i].1 == (i
                < probes@.len() && usable(platform, probes@[i]@)),
{
    let mut out: Vec<(String, bool)> = Vec::new();
    let mut i: usize = 0;
    while i < names.len()
        invariant
            i <= names.len(),
            out@.len() == i,
            forall|j: int|
                0 <= j < i ==> (#[trigger] out@[j]).0@ == names@[j]@ && out@[j].1 == (j
                    < probes@.len() && usable(platform, probes@[j]@)),
        decreases names.len() - i,
    {
        let available = i < probes.len() && is_usable(platform, &probes[i]);
        out.push((String::from_str(names[i]), available));
        i += 1;
    }
    out
}

/// For every registered key, in ascending order, the adapter's candidates in
/// their order, each with the word on whether the host offers it in a
/// trusted place. On a platform without an allow-list none is offered.
pub fn get_health_info(registry: &Registry, platform: Platform) -> (r: Vec<
    (String, Vec<(String, bool)>),
>)
    requires
        registry.wf(),
    ensures
        r@.len() == registry.keys().len(),
        forall|i: int|
            0 <= i < r@.len() ==> {
                &&& (#[trigger] r@[i]).0@ == registry.keys()[i]
                &&& r@[i].1@.len() == registry.kinds()[i].candidates(platform).len()
                &&& forall|j: int|
                    0 <= j < r@[i].1@.len() ==> {
                        &&& (#[trigger] r@[i].1@[j]).0@ == registry.kinds()[i].candidates(platform)[j]
                        &&& platform == Platform::Other ==> !r@[i].1@[j].1
                    }
            },
{
    let mut out: Vec<(String, Vec<(String, bool)>)> = Vec::new();
    let mut i: usize = 0;
    while i < registry.len()
        invariant
            registry.wf(),
            i <= registry.keys().len(),
            out@.len() == i,
            forall|k: int|
                0 <= k < i ==> {
                    &&& (#[trigger] out@[k]).0@ == registry.keys()[k]
                    &&& out@[k].1@.len() == registry.kinds()[k].candidates(platform).len()
                    &&& forall|j: int|
                        0 <= j < out@[k].1@.len() ==> {
                            &&& (#[trigger] out@[k].1@[j]).0@ == registry.kinds()[k].candidates(
                                platform,
                            )[j]
                            &&& platform == Platform::Other ==> !out@[k].1@[j].1
                        }
                },
        decreases registry.keys().len() - i,
    {
        let (key, kind) = registry.entry(i);
        let names = kind.binary_names(platform);
        let probes = probe_binaries(&names);
        let binaries = availability(platform, &names, &probes);
        proof {
            lemma_unknown_platform_uses_nothing(probes@);
            assert forall|j: int| 0 <= j < binaries@.len() implies (#[trigger] binaries@[j]).0@
                == kind.candidates(platform)[j] && (platform == Platform::Other
                ==> !binaries@[j].1) by {
                assert(views(names@)[j] == names@[j]@);
            }
            assert(views(names@).len() == names@.len());
        }
        out.push((String::from_str(key), binaries));
        i += 1;
    }
    out
}

/// The names of `binaries` whose availability is `flag`, in their order.
pub open spec fn names_with(binaries: Seq<(String, bool)>, flag: bool) -> Seq<Seq<char>>
    decreases binaries.len(),
{
    if binaries.len() == 0 {
        Seq::empty()
    } else if binaries.last().1 == flag {
        names_with(binaries.drop_last(), flag).push(binaries.last().0@)
    } else {
        names_with(binaries.drop_last(), flag)
    }
}

/// Splits a format's tools for the report: first those that are available,
/// then those that are missing, each group in candidate order.
pub fn split_by_availability(binaries: &Vec<(String, bool)>) -> (r: (Vec<String>, Vec<String>))
    ensures
        string_views(r.0@) == names_with(binaries@, true),
        string_views(r.1@) == names_with(binaries@, false),
{
    let mut available: Vec<String> = Vec::new();
    let mut missing: Vec<String> = Vec::new();
    let mut i: usize = 0;
    assert(binaries@.take(0) =~= Seq::<(String, bool)>::empty());
    assert(string_views(available@) =~= Seq::<Seq<char>>::empty());
    while i < binaries.len()
        invariant
            i <= binaries.len(),
            string_views(available@) == names_with(binaries@.take(i as int), true),
            string_views(missing@) == names_with(binaries@.take(i as int), false),
        decreases binaries.len() - i,
    {
        let ghost a0 = available@;
        let ghost m0 = missing@;
        proof {
            let next = binaries@.take(i + 1);
            assert(next.drop_last() =~= binaries@.take(i as int));
            assert(next.last() == binaries@[i as int]);
        }
        if binaries[i].1 {
            available.push(binaries[i].0.clone());
            assert(string_views(available@) =~= string_views(a0).push(binaries@[i as int].0@));
        } else {
            missing.push(binaries[i].0.clone());
            assert(string_views(missing@) =~= string_views(m0).push(binaries@[i as int].0@));
        }
        i += 1;
    }
    assert(binaries@.take(binaries.len() as int) =~= binaries@);
    (available, missing)
}

} // verus!
