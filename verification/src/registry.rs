//! The deduplicating selector registry: a map from selector key to the
//! first signature observed for it.  Entries are only ever added, never
//! removed or updated; one check-and-maybe-insert call both tests and
//! claims a selector, so a selector can be claimed exactly once.

use vstd::prelude::*;
use std::collections::HashMap;

verus! {

broadcast use vstd::std_specs::hash::group_hash_axioms;

/// What one check-and-maybe-insert call reports.
#[derive(Clone, Copy, Debug, PartialEq, Eq)]
pub enum InsertOutcome {
    /// The selector was new; its signature is now registered.
    Inserted,
    /// The selector had already been claimed; the registry is unchanged.
    AlreadyPresent,
}

/// The outcome check-and-maybe-insert reports on a registry with contents
/// `m`: `Inserted` exactly when the selector key is not yet present.
pub open spec fn spec_insert_outcome(m: Map<u32, String>, key: u32) -> InsertOutcome {
    if m.contains_key(key) {
        InsertOutcome::AlreadyPresent
    } else {
        InsertOutcome::Inserted
    }
}

/// Map from selector key (the four selector bytes packed big-endian) to the
/// first signature observed with that selector.
pub struct DedupRegistry {
    map: HashMap<u32, String>,
}

impl View for DedupRegistry {
    type V = Map<u32, String>;

    closed spec fn view(&self) -> Map<u32, String> {
        self.map@
    }
}

impl DedupRegistry {
    /// An empty registry: no selector has been seen.
    pub fn new() -> (r: Self)
        ensures
            r@ == Map::<u32, String>::empty(),
    {
        DedupRegistry { map: HashMap::new() }
    }

    /// How many distinct selectors have been registered.
    pub fn len(&self) -> (r: usize)
        ensures
            r as nat == self@.dom().len(),
    {
        self.map.len()
    }

    /// Whether a selector key has been registered.
    pub fn contains(&self, key: u32) -> (r: bool)
        ensures
            r == self@.contains_key(key),
    {
        self.map.contains_key(&key)
    }

    /// Tests and claims a selector in one step: if the key is new, the
    /// signature is registered under it and the call reports `Inserted`;
    /// otherwise nothing changes and the call reports `AlreadyPresent`.
    /// Entries are never removed or replaced.
    pub fn check_and_maybe_insert(&mut self, key: u32, signature: String) -> (r: InsertOutcome)
        ensures
            r == spec_insert_outcome(old(self)@, key),
            final(self)@ == (if old(self)@.contains_key(key) {
                old(self)@
            } else {
                old(self)@.insert(key, signature)
            }),
            final(self)@.contains_key(key),
            old(self)@.submap_of(final(self)@),
    {
        if self.map.contains_key(&key) {
            InsertOutcome::AlreadyPresent
        } else {
            self.map.insert(key, signature);
            InsertOutcome::Inserted
        }
    }
}

/// Law: claiming a selector is idempotent.  After any insert of a key, the
/// map contains that key, so by the contract of `check_and_maybe_insert`
/// every later call with the same key — whatever signature it carries, and
/// whatever else was inserted in between — reports `AlreadyPresent` and
/// leaves the registry unchanged.  `Inserted` is therefore reported at most
/// once per key over any run.
pub proof fn lemma_insert_idempotent(m: Map<u32, String>, key: u32, sig: String, later: Map<u32, String>)
    requires
        m.insert(key, sig).submap_of(later),
    ensures
        spec_insert_outcome(m, key) == InsertOutcome::Inserted || m.contains_key(key),
        spec_insert_outcome(later, key) == InsertOutcome::AlreadyPresent,
{
    assert(m.insert(key, sig).contains_key(key));
    assert(later.contains_key(key));
}

} // verus!
