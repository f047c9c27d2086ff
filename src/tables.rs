//! Hash tables backed by `hashbrown`, each with a mathematical view of what it holds.
use vstd::prelude::*;
use crate::entry::CacheEntry;

verus! {

/// Where each registered recipe's tunable set is stored: recipe identity to slot.
#[verifier::external_body]
pub struct SlotTable {
    inner: hashbrown::HashMap<u64, usize>,
}

pub uninterp spec fn slots_of(t: SlotTable) -> Map<u64, usize>;

impl SlotTable {
    pub open spec fn view(&self) -> Map<u64, usize> {
        slots_of(*self)
    }

    /// Relies on hashbrown::HashMap::new: the map starts empty.
    #[verifier::external_body]
    pub fn new() -> (r: SlotTable)
        ensures
            slots_of(r) =~= Map::empty(),
    {
        SlotTable { inner: hashbrown::HashMap::new() }
    }

    /// Relies on hashbrown::HashMap::get: the value stored under `k`, if any.
    #[verifier::external_body]
    pub fn get(&self, k: u64) -> (r: Option<usize>)
        ensures
            r == (if slots_of(*self).contains_key(k) { Some(slots_of(*self)[k]) } else { None::<usize> }),
    {
        self.inner.get(&k).copied()
    }

    /// Relies on hashbrown::HashMap::insert: `k` now maps to `v`, other keys are untouched.
    #[verifier::external_body]
    pub fn insert(&mut self, k: u64, v: usize)
        ensures
            slots_of(*final(self)) == slots_of(*old(self)).insert(k, v),
    {
        self.inner.insert(k, v);
    }
}

} // verus!

verus! {

/// The cache proper: (identity, fingerprint) to its stored entry.
#[verifier::external_body]
pub struct EntryTable {
    inner: hashbrown::HashMap<(u64, u64), CacheEntry>,
}

pub uninterp spec fn entries_of(t: EntryTable) -> Map<(u64, u64), CacheEntry>;

impl EntryTable {
    pub open spec fn view(&self) -> Map<(u64, u64), CacheEntry> {
        entries_of(*self)
    }

    /// Relies on hashbrown::HashMap::new: the map starts empty.
    #[verifier::external_body]
    pub fn new() -> (r: EntryTable)
        ensures
            entries_of(r) =~= Map::empty(),
    {
        EntryTable { inner: hashbrown::HashMap::new() }
    }

    /// Relies on hashbrown::HashMap::get: the entry stored under `k`, if any.
    #[verifier::external_body]
    pub fn get(&self, k: (u64, u64)) -> (r: Option<CacheEntry>)
        ensures
            r == (if entries_of(*self).contains_key(k) { Some(entries_of(*self)[k]) } else { None::<CacheEntry> }),
    {
        self.inner.get(&k).copied()
    }

    /// Relies on hashbrown::HashMap::insert: `k` now maps to `v`, other keys are untouched.
    #[verifier::external_body]
    pub fn insert(&mut self, k: (u64, u64), v: CacheEntry)
        ensures
            entries_of(*final(self)) == entries_of(*old(self)).insert(k, v),
    {
        self.inner.insert(k, v);
    }

    /// Relies on hashbrown::HashMap::remove: `k` has no entry afterwards, other keys are untouched.
    #[verifier::external_body]
    pub fn remove(&mut self, k: (u64, u64))
        ensures
            entries_of(*final(self)) == entries_of(*old(self)).remove(k),
    {
        self.inner.remove(&k);
    }
}

/// The in-flight markers: pairs whose benchmarking some caller has taken on.
#[verifier::external_body]
pub struct KeySet {
    inner: hashbrown::HashSet<(u64, u64)>,
}

pub uninterp spec fn keys_of(t: KeySet) -> Set<(u64, u64)>;

impl KeySet {
    pub open spec fn view(&self) -> Set<(u64, u64)> {
        keys_of(*self)
    }

    /// Relies on hashbrown::HashSet::new: the set starts empty.
    #[verifier::external_body]
    pub fn new() -> (r: KeySet)
        ensures
            keys_of(r) =~= Set::empty(),
    {
        KeySet { inner: hashbrown::HashSet::new() }
    }

    /// Relies on hashbrown::HashSet::contains: whether `k` is in the set.
    #[verifier::external_body]
    pub fn contains(&self, k: (u64, u64)) -> (r: bool)
        ensures
            r == keys_of(*self).contains(k),
    {
        self.inner.contains(&k)
    }

    /// Relies on hashbrown::HashSet::insert: `k` is in the set afterwards, nothing else changes.
    #[verifier::external_body]
    pub fn insert(&mut self, k: (u64, u64))
        ensures
            keys_of(*final(self)) == keys_of(*old(self)).insert(k),
    {
        self.inner.insert(k);
    }
}

} // verus!
