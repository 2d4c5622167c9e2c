//! The registry: which adapter answers for which extension key.

use crate::extractor::Extractor;
use crate::key::{get_extension, path_key};
use crate::kind::{all_kinds, every_kind, ExtractorKind};
use crate::text::{
    lemma_lex_irreflexive, lemma_lex_total, lemma_lex_transitive, lex_less, lowercased, str_equal,
    str_less, to_lower, views,
};
use vstd::prelude::*;
use vstd::string::*;

verus! {

/// One key with the adapter that owns it.
#[derive(Clone, Debug)]
pub struct RegistryEntry {
    pub key: String,
    pub kind: ExtractorKind,
}

/// A map from extension key to adapter, held in ascending order of the keys,
/// so that each key has one owner and listings come out sorted.
#[derive(Clone, Debug)]
pub struct Registry {
    entries: Vec<RegistryEntry>,
}

/// `keys` ascend strictly.
pub open spec fn ascending(keys: Seq<Seq<char>>) -> bool {
    forall|i: int, j: int| 0 <= i < j < keys.len() ==> lex_less(#[trigger] keys[i], #[trigger] keys[j])
}

/// `key` is the lower-case form of some text.
pub open spec fn is_lowered(key: Seq<char>) -> bool {
    exists|text: Seq<char>| key == #[trigger] lowercased(text)
}

/// Every one of `keys` is a lower-case form.
pub open spec fn all_lowered(keys: Seq<Seq<char>>) -> bool {
    forall|i: int| 0 <= i < keys.len() ==> is_lowered(#[trigger] keys[i])
}

/// A registry's content after `kind` has taken over the lower-case form of
/// each of `keys`.
pub open spec fn with_keys(
    content: Map<Seq<char>, ExtractorKind>,
    keys: Seq<Seq<char>>,
    kind: ExtractorKind,
) -> Map<Seq<char>, ExtractorKind>
    decreases keys.len(),
{
    if keys.len() == 0 {
        content
    } else {
        with_keys(content, keys.drop_last(), kind).insert(lowercased(keys.last()), kind)
    }
}

/// A registry's content after the adapters in `kinds` have registered in
/// turn, each under all its extensions.
pub open spec fn with_kinds(
    content: Map<Seq<char>, ExtractorKind>,
    kinds: Seq<ExtractorKind>,
) -> Map<Seq<char>, ExtractorKind>
    decreases kinds.len(),
{
    if kinds.len() == 0 {
        content
    } else {
        with_keys(with_kinds(content, kinds.drop_last()), kinds.last().extensions(), kinds.last())
    }
}

/// The owner of `key` in `content`, if it has one.
pub open spec fn owner(content: Map<Seq<char>, ExtractorKind>, key: Seq<char>) -> Option<
    ExtractorKind,
> {
    if content.dom().contains(key) {
        Some(content[key])
    } else {
        None
    }
}

impl Registry {
    /// The keys, in the order in which they are held.
    pub closed spec fn keys(&self) -> Seq<Seq<char>> {
        Seq::new(self.entries@.len(), |i: int| self.entries@[i].key@)
    }

    /// The adapters, each at the position of its key.
    pub closed spec fn kinds(&self) -> Seq<ExtractorKind> {
        Seq::new(self.entries@.len(), |i: int| self.entries@[i].kind)
    }

    /// The keys ascend strictly, so none occurs twice, and each is a
    /// lower-case form.
    pub open spec fn wf(&self) -> bool {
        &&& self.keys().len() == self.kinds().len()
        &&& ascending(self.keys())
        &&& all_lowered(self.keys())
    }

    /// The registry as a map from key to adapter.
    pub open spec fn view(&self) -> Map<Seq<char>, ExtractorKind> {
        Map::new(
            |k: Seq<char>| self.keys().contains(k),
            |k: Seq<char>| self.kinds()[self.keys().index_of(k)],
        )
    }

    /// In a well-formed registry the key at a position maps to the adapter
    /// at that position.
    pub proof fn lemma_entry(&self, i: int)
        requires
            self.wf(),
            0 <= i < self.keys().len(),
        ensures
            self@.dom().contains(self.keys()[i]),
            self@[self.keys()[i]] == self.kinds()[i],
    {
        let k = self.keys()[i];
        assert(self.keys().contains(k));
        let j = self.keys().index_of(k);
        lemma_lex_irreflexive(k);
        if j < i {
            assert(lex_less(self.keys()[j], self.keys()[i]));
        } else if i < j {
            assert(lex_less(self.keys()[i], self.keys()[j]));
        }
    }

    /// A registry without entries.
    pub fn new() -> (r: Registry)
        ensures
            r.wf(),
            r@ == Map::<Seq<char>, ExtractorKind>::empty(),
            r.keys() == Seq::<Seq<char>>::empty(),
    {
        let r = Registry { entries: Vec::new() };
        assert(r.keys() =~= Seq::<Seq<char>>::empty());
        assert(r@ =~= Map::<Seq<char>, ExtractorKind>::empty());
        r
    }

    /// The number of keys.
    pub fn len(&self) -> (r: usize)
        ensures
            r == self.keys().len(),
    {
        self.entries.len()
    }

    /// The key and the adapter at a position of the ascending order.
    pub fn entry(&self, i: usize) -> (r: (&str, ExtractorKind))
        requires
            self.wf(),
            i < self.keys().len(),
        ensures
            r.0@ == self.keys()[i as int],
            r.1 == self.kinds()[i as int],
            owner(self@, r.0@) == Some(r.1),
    {
        proof {
            self.lemma_entry(i as int);
        }
        (self.entries[i].key.as_str(), self.entries[i].kind)
    }

    /// The adapter that owns `key`, if one does.
    pub fn get(&self, key: &str) -> (r: Option<ExtractorKind>)
        requires
            self.wf(),
        ensures
            r == owner(self@, key@),
    {
        let mut i: usize = 0;
        while i < self.entries.len()
            invariant
                self.wf(),
                i <= self.entries.len(),
                forall|j: int| 0 <= j < i ==> self.keys()[j] != key@,
            decreases self.entries.len() - i,
        {
            if str_equal(self.entries[i].key.as_str(), key) {
                proof {
                    self.lemma_entry(i as int);
                }
                return Some(self.entries[i].kind);
            }
            i += 1;
        }
        None
    }

    /// Makes `kind` the owner of the lower-case form of `key`, in place of an
    /// earlier owner if there was one. Keys are lower-cased as they are made,
    /// so that the key of a file name, which is lower-cased too, finds them.
    pub fn insert(&mut self, key: &str, kind: ExtractorKind)
        requires
            old(self).wf(),
        ensures
            final(self).wf(),
            final(self)@ == old(self)@.insert(lowercased(key@), kind),
    {
        let lowered = to_lower(key);
        self.put(lowered.as_str(), kind);
    }

    /// Puts a key that is already in lower case at its place in the order.
    fn put(&mut self, key: &str, kind: ExtractorKind)
        requires
            old(self).wf(),
            is_lowered(key@),
        ensures
            final(self).wf(),
            final(self)@ == old(self)@.insert(key@, kind),
    {
        let mut p: usize = 0;
        while p < self.entries.len() && str_less(self.entries[p].key.as_str(), key)
            invariant
                self.wf(),
                *self == *old(self),
                p <= self.entries.len(),
                forall|j: int| 0 <= j < p ==> lex_less(self.keys()[j], key@),
            decreases self.entries.len() - p,
        {
            p += 1;
        }
        let ghost before = *self;
        let entry = RegistryEntry { key: String::from_str(key), kind };
        let replaces = p < self.entries.len() && !str_less(key, self.entries[p].key.as_str());
        if replaces {
            proof {
                lemma_lex_total(before.keys()[p as int], key@);
            }
            self.entries.set(p, entry);
            proof {
                assert(self.keys() =~= before.keys());
                assert(self.kinds() =~= before.kinds().update(p as int, kind));
            }
        } else {
            self.entries.insert(p, entry);
            proof {
                assert(self.keys() =~= before.keys().insert(p as int, key@));
                assert(self.kinds() =~= before.kinds().insert(p as int, kind));
                assert forall|i: int| 0 <= i < self.keys().len() implies is_lowered(
                    #[trigger] self.keys()[i],
                ) by {
                    if i != p {
                        let a = if i < p { i } else { i - 1 };
                        assert(self.keys()[i] == before.keys()[a]);
                    }
                }
                assert forall|i: int, j: int| 0 <= i < j < self.keys().len() implies lex_less(
                    #[trigger] self.keys()[i],
                    #[trigger] self.keys()[j],
                ) by {
                    if j == p {
                        assert(self.keys()[i] == before.keys()[i]);
                    } else if i == p {
                        assert(self.keys()[j] == before.keys()[j - 1]);
                        if j - 1 > p {
                            assert(lex_less(before.keys()[p as int], before.keys()[j - 1]));
                            lemma_lex_transitive(key@, before.keys()[p as int], before.keys()[j - 1]);
                        }
                    } else {
                        let a = if i < p { i } else { i - 1 };
                        let b = if j < p { j } else { j - 1 };
                        assert(self.keys()[i] == before.keys()[a]);
                        assert(self.keys()[j] == before.keys()[b]);
                        assert(lex_less(before.keys()[a], before.keys()[b]));
                    }
                }
            }
        }
        proof {
            let after = *self;
            let expected = before@.insert(key@, kind);
            assert(after.wf());
            assert(after.keys()[p as int] == key@);
            assert(after.kinds()[p as int] == kind);
            assert forall|k: Seq<char>| after@.dom().contains(k) <==> expected.dom().contains(
                k,
            ) by {
                if after.keys().contains(k) {
                    let i = after.keys().index_of(k);
                    if i != p {
                        let a = if replaces || i < p { i } else { i - 1 };
                        assert(before.keys()[a] == k);
                    }
                }
                if before.keys().contains(k) {
                    let a = before.keys().index_of(k);
                    let i = if replaces || a < p { a } else { a + 1 };
                    assert(after.keys()[i] == k);
                }
            }
            assert forall|k: Seq<char>| after@.dom().contains(k) implies after@[k] == expected[k] by {
                let i = after.keys().index_of(k);
                after.lemma_entry(i);
                if i == p {
                } else {
                    let a = if replaces || i < p { i } else { i - 1 };
                    assert(before.keys()[a] == k);
                    before.lemma_entry(a);
                    lemma_lex_irreflexive(key@);
                    if a < p {
                        assert(lex_less(before.keys()[a], key@));
                    } else {
                        assert(lex_less(after.keys()[p as int], after.keys()[i]));
                    }
                }
            }
            assert(after@ =~= expected);
        }
    }
}

/// Registers an adapter under the lower-case form of each of its
/// extensions; a key that had an owner passes to the new one.
pub fn register_extractor(registry: &mut Registry, extractor: ExtractorKind)
    requires
        old(registry).wf(),
    ensures
        final(registry).wf(),
        final(registry)@ == with_keys(old(registry)@, extractor.extensions(), extractor),
{
    let exts = extractor.file_extensions();
    let mut i: usize = 0;
    while i < exts.len()
        invariant
            registry.wf(),
            i <= exts.len(),
            views(exts@) == extractor.extensions(),
            registry@ == with_keys(old(registry)@, extractor.extensions().take(i as int), extractor),
        decreases exts.len() - i,
    {
        proof {
            let next = extractor.extensions().take(i + 1);
            assert(next.drop_last() =~= extractor.extensions().take(i as int));
            assert(next.last() == exts@[i as int]@);
        }
        registry.insert(exts[i], extractor);
        i += 1;
    }
    proof {
        assert(extractor.extensions().take(exts.len() as int) =~= extractor.extensions());
    }
}

/// A registry in which the given adapters have registered in turn.
pub fn build_registry(adapters: &Vec<ExtractorKind>) -> (r: Registry)
    ensures
        r.wf(),
        r@ == with_kinds(Map::empty(), adapters@),
{
    let mut registry = Registry::new();
    let mut i: usize = 0;
    while i < adapters.len()
        invariant
            registry.wf(),
            i <= adapters.len(),
            registry@ == with_kinds(Map::empty(), adapters@.take(i as int)),
        decreases adapters.len() - i,
    {
        proof {
            let next = adapters@.take(i + 1);
            assert(next.drop_last() =~= adapters@.take(i as int));
            assert(next.last() == adapters@[i as int]);
        }
        register_extractor(&mut registry, adapters[i]);
        i += 1;
    }
    proof {
        assert(adapters@.take(adapters.len() as int) =~= adapters@);
    }
    registry
}

/// The registry of every adapter that the library ships.
pub fn register_extractors() -> (r: Registry)
    ensures
        r.wf(),
        r@ == with_kinds(Map::empty(), all_kinds()),
{
    let kinds = every_kind();
    build_registry(&kinds)
}

/// The adapter for a file: the owner of the key of its path.
pub fn get_extractor(registry: &Registry, path: &str) -> (r: Option<ExtractorKind>)
    requires
        registry.wf(),
    ensures
        r == match path_key(path@) {
            Some(k) => owner(registry@, k),
            None => None,
        },
{
    match get_extension(path) {
        Some(key) => registry.get(key.as_str()),
        None => None,
    }
}

/// After a registration the adapter owns the lower-case form of each of the
/// extensions it registered under, whoever owned it before.
pub proof fn lemma_registration_takes_over(
    content: Map<Seq<char>, ExtractorKind>,
    keys: Seq<Seq<char>>,
    kind: ExtractorKind,
    i: int,
)
    requires
        0 <= i < keys.len(),
    ensures
        owner(with_keys(content, keys, kind), lowercased(keys[i])) == Some(kind),
    decreases keys.len(),
{
    if i < keys.len() - 1 {
        lemma_registration_takes_over(content, keys.drop_last(), kind, i);
    }
}

/// A registration leaves every key alone that the adapter did not register
/// under.
pub proof fn lemma_registration_keeps_others(
    content: Map<Seq<char>, ExtractorKind>,
    keys: Seq<Seq<char>>,
    kind: ExtractorKind,
    other: Seq<char>,
)
    requires
        forall|j: int| 0 <= j < keys.len() ==> lowercased(#[trigger] keys[j]) != other,
    ensures
        owner(with_keys(content, keys, kind), other) == owner(content, other),
    decreases keys.len(),
{
    if keys.len() > 0 {
        assert(keys.last() == keys[keys.len() - 1]);
        assert forall|j: int| 0 <= j < keys.drop_last().len() implies lowercased(
            #[trigger] keys.drop_last()[j],
        ) != other by {
            assert(keys[j] == keys.drop_last()[j]);
        }
        lemma_registration_keeps_others(content, keys.drop_last(), kind, other);
    }
}

/// Among adapters that register in turn, an extension belongs to the adapter
/// that listed it unless a later one lists an extension with the same
/// lower-case form.
pub proof fn lemma_last_registration_owns(
    content: Map<Seq<char>, ExtractorKind>,
    kinds: Seq<ExtractorKind>,
    i: int,
    j: int,
)
    requires
        0 <= i < kinds.len(),
        0 <= j < kinds[i].extensions().len(),
        forall|m: int, n: int|
            i < m < kinds.len() && 0 <= n < kinds[m].extensions().len() ==> lowercased(
                #[trigger] kinds[m].extensions()[n],
            ) != lowercased(kinds[i].extensions()[j]),
    ensures
        owner(with_kinds(content, kinds), lowercased(kinds[i].extensions()[j])) == Some(kinds[i]),
    decreases kinds.len(),
{
    let last = kinds.last();
    let before = with_kinds(content, kinds.drop_last());
    if i == kinds.len() - 1 {
        lemma_registration_takes_over(before, last.extensions(), last, j);
    } else {
        assert(kinds.drop_last()[i] == kinds[i]);
        assert forall|m: int, n: int|
            i < m < kinds.drop_last().len() && 0 <= n < kinds.drop_last()[m].extensions().len() implies lowercased(
            #[trigger] kinds.drop_last()[m].extensions()[n],
        ) != lowercased(kinds.drop_last()[i].extensions()[j]) by {
            assert(kinds.drop_last()[m] == kinds[m]);
        }
        lemma_last_registration_owns(content, kinds.drop_last(), i, j);
        assert forall|n: int| 0 <= n < last.extensions().len() implies lowercased(
            #[trigger] last.extensions()[n],
        ) != lowercased(kinds[i].extensions()[j]) by {
            assert(kinds[kinds.len() - 1] == last);
        }
        lemma_registration_keeps_others(
            before,
            last.extensions(),
            last,
            lowercased(kinds[i].extensions()[j]),
        );
    }
}

} // verus!
