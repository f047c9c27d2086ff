//! The local tuner: a registry of tunable sets and the per-(identity,
//! fingerprint) cache that decides, on every call, which variant runs.
//!
//! Each step of an execution is one method here; the caller runs the
//! candidates between the steps, holding no lock on the tuner while it does.
use vstd::prelude::*;
use std::sync::Arc;
use crate::entry::{CacheEntry, TuneCacheResult, result_of, entry_result};
use crate::select::{best_of, fastest_of};
use crate::tables::{EntryTable, KeySet, SlotTable};

verus! {

/// An (identity, fingerprint) pair.
pub type TuneKey = (u64, u64);

/// The measurements of one completed benchmarking pass: `timings[i]` is the
/// cost of candidate `i`, `None` where that candidate failed on the input.
pub struct Outcome {
    pub id: u64,
    pub key: u64,
    pub timings: Vec<Option<u64>>,
    pub checksum: u64,
}

/// A winner to persist: keyed by identity and fingerprint, with the checksum
/// of the tunable set that produced it.
#[derive(Clone, Copy, Debug, PartialEq, Eq, Structural)]
pub struct Record {
    pub id: u64,
    pub key: u64,
    pub fastest_index: usize,
    pub checksum: u64,
}

/// A broken protocol invariant: the call must fail loudly.
#[derive(Clone, Copy, Debug, PartialEq, Eq, Structural)]
pub enum TuneDefect {
    /// The caller was responsible for benchmarking, yet the pair is still a miss.
    BenchmarkNotStarted,
    /// An unchecked entry reached the point where a variant is chosen.
    UncheckedEntry,
}

/// The entry stored under `k`, if any.
pub open spec fn lookup(m: Map<TuneKey, CacheEntry>, k: TuneKey) -> Option<CacheEntry> {
    if m.contains_key(k) { Some(m[k]) } else { None }
}

/// The cache after comparing the persisted checksum of `k` with `c`: an
/// unchecked winner with a matching checksum becomes trusted, one with another
/// checksum is discarded; any other entry stays.
pub open spec fn validated(m: Map<TuneKey, CacheEntry>, k: TuneKey, c: u64) -> Map<TuneKey, CacheEntry> {
    match lookup(m, k) {
        Some(CacheEntry::Unchecked { fastest_index, checksum }) => if checksum == c {
            m.insert(k, CacheEntry::Done { fastest_index, checksum })
        } else {
            m.remove(k)
        },
        _ => m,
    }
}

/// The exclusive step of an execution: validate the checksum, then, on a miss
/// that nobody has taken on, mark `k` in flight and make this caller the one
/// that benchmarks. Gives the new cache, the new in-flight set, the state
/// seen and whether this caller is responsible.
pub open spec fn claimed(m: Map<TuneKey, CacheEntry>, inflight: Set<TuneKey>, k: TuneKey, c: u64) -> (
    Map<TuneKey, CacheEntry>,
    Set<TuneKey>,
    TuneCacheResult,
    bool,
) {
    let v = validated(m, k, c);
    let f = result_of(lookup(v, k));
    if f == TuneCacheResult::Miss && !inflight.contains(k) {
        (v, inflight.insert(k), f, true)
    } else {
        (v, inflight, f, false)
    }
}

/// The cache once benchmarking of `k` has begun: a miss becomes pending.
pub open spec fn marked(m: Map<TuneKey, CacheEntry>, k: TuneKey) -> Map<TuneKey, CacheEntry> {
    if m.contains_key(k) { m } else { m.insert(k, CacheEntry::Pending) }
}

/// The cache after one benchmarking pass is harvested: its winner, if any
/// candidate succeeded, becomes the trusted entry.
pub open spec fn applied(m: Map<TuneKey, CacheEntry>, o: Outcome) -> Map<TuneKey, CacheEntry> {
    match best_of(o.timings@) {
        Some(i) => m.insert((o.id, o.key), CacheEntry::Done { fastest_index: i as usize, checksum: o.checksum }),
        None => m,
    }
}

/// The cache after harvesting the passes `os` in order.
pub open spec fn applied_all(m: Map<TuneKey, CacheEntry>, os: Seq<Outcome>) -> Map<TuneKey, CacheEntry>
    decreases os.len(),
{
    if os.len() == 0 {
        m
    } else {
        applied(applied_all(m, os.drop_last()), os.last())
    }
}

/// The winners to persist from the passes `os`, in order.
pub open spec fn records_of(os: Seq<Outcome>) -> Seq<Record>
    decreases os.len(),
{
    if os.len() == 0 {
        Seq::empty()
    } else {
        let prev = records_of(os.drop_last());
        let o = os.last();
        match best_of(o.timings@) {
            Some(i) => prev.push(Record { id: o.id, key: o.key, fastest_index: i as usize, checksum: o.checksum }),
            None => prev,
        }
    }
}

/// The variant to run once the harvest is done: the winner on a hit, the
/// universal default (index 0) while benchmarking is under way, and a defect
/// where the protocol was broken.
pub open spec fn selected(f: TuneCacheResult, run_autotune: bool) -> Result<usize, TuneDefect> {
    match f {
        TuneCacheResult::Hit { fastest_index } => Ok(fastest_index),
        TuneCacheResult::Pending => Ok(0),
        TuneCacheResult::Miss => if run_autotune { Err(TuneDefect::BenchmarkNotStarted) } else { Ok(0) },
        TuneCacheResult::Unchecked => Err(TuneDefect::UncheckedEntry),
    }
}

/// No pair in flight holds an unchecked entry.
pub open spec fn inflight_checked(m: Map<TuneKey, CacheEntry>, inflight: Set<TuneKey>) -> bool {
    forall|k: TuneKey| #[trigger] inflight.contains(k) ==> !(lookup(m, k) matches Some(CacheEntry::Unchecked { .. }))
}

/// Relies on Arc::clone: the clone points to the same value.
#[verifier::external_body]
fn share<T>(a: &Arc<T>) -> (r: Arc<T>)
    ensures
        r == *a,
{
    Arc::clone(a)
}

/// Tunable sets registered by recipe, and the autotune cache of every identity.
pub struct LocalTuner<T> {
    name: &'static str,
    cache: EntryTable,
    inflight: KeySet,
    completed: Vec<Outcome>,
    slots: SlotTable,
    sets: Vec<Arc<T>>,
}

impl<T> LocalTuner<T> {
    /// The stored entry of every pair.
    pub closed spec fn entries(&self) -> Map<TuneKey, CacheEntry> {
        self.cache@
    }

    /// The pairs whose benchmarking some caller has taken on.
    pub closed spec fn in_flight(&self) -> Set<TuneKey> {
        self.inflight@
    }

    /// Completed passes not yet harvested, in arrival order.
    pub closed spec fn queued(&self) -> Seq<Outcome> {
        self.completed@
    }

    /// The recipes with a registered tunable set.
    pub closed spec fn recipes(&self) -> Set<u64> {
        self.slots@.dom()
    }

    /// The tunable set registered for `recipe`.
    pub closed spec fn set_of(&self, recipe: u64) -> Arc<T> {
        self.sets@[self.slots@[recipe] as int]
    }

    pub closed spec fn spec_name(&self) -> &'static str {
        self.name
    }

    pub closed spec fn wf(&self) -> bool {
        &&& forall|r: u64| #[trigger] self.slots@.contains_key(r) ==> self.slots@[r] < self.sets@.len()
        &&& inflight_checked(self.cache@, self.inflight@)
    }

    /// A tuner with no registered sets and an empty cache.
    pub fn new(name: &'static str) -> (r: Self)
        ensures
            r.wf(),
            r.spec_name() == name,
            r.entries() =~= Map::empty(),
            r.in_flight() =~= Set::empty(),
            r.queued() =~= Seq::empty(),
            r.recipes() =~= Set::empty(),
    {
        LocalTuner {
            name,
            cache: EntryTable::new(),
            inflight: KeySet::new(),
            completed: Vec::new(),
            slots: SlotTable::new(),
            sets: Vec::new(),
        }
    }

    /// The name this tuner was created with.
    pub fn name(&self) -> (r: &'static str)
        ensures
            r == self.spec_name(),
    {
        self.name
    }

    /// The shared tunable set of `recipe`: the registered one when there is
    /// one (and `build` is not called), else the one `build` makes, which is
    /// registered.
    pub fn init<F: Fn() -> T>(&mut self, recipe: u64, build: F) -> (r: Arc<T>)
        requires
            old(self).wf(),
            build.requires(()),
        ensures
            final(self).wf(),
            final(self).recipes() == old(self).recipes().insert(recipe),
            final(self).set_of(recipe) == r,
            forall|q: u64| #[trigger] old(self).recipes().contains(q) ==> final(self).set_of(q) == old(self).set_of(q),
            old(self).recipes().contains(recipe) ==> r == old(self).set_of(recipe),
            !old(self).recipes().contains(recipe) ==> build.ensures((), *r),
            final(self).entries() == old(self).entries(),
            final(self).in_flight() == old(self).in_flight(),
            final(self).queued() == old(self).queued(),
            final(self).spec_name() == old(self).spec_name(),
    {
        match self.slots.get(recipe) {
            Some(slot) => {
                proof {
                    assert(self.slots@.contains_key(recipe));
                }
                share(&self.sets[slot])
            },
            None => {
                let content = Arc::new(build());
                let slot = self.sets.len();
                self.sets.push(share(&content));
                self.slots.insert(recipe, slot);
                proof {
                    assert forall|q: u64| #[trigger] self.slots@.contains_key(q) implies self.slots@[q] < self.sets@.len() by {
                        if q != recipe {
                            assert(old(self).slots@.contains_key(q));
                        }
                    }
                    assert forall|q: u64| #[trigger] old(self).recipes().contains(q) implies self.set_of(q) == old(self).set_of(q) by {
                        assert(old(self).slots@.contains_key(q));
                        assert(q != recipe);
                    }
                    assert(self.slots@.dom() =~= old(self).slots@.dom().insert(recipe));
                }
                content
            },
        }
    }

    /// Discards every cached state, in-flight marker and unharvested pass;
    /// registered tunable sets stay.
    pub fn clear(&mut self)
        requires
            old(self).wf(),
        ensures
            final(self).wf(),
            final(self).entries() =~= Map::empty(),
            final(self).in_flight() =~= Set::empty(),
            final(self).queued() =~= Seq::empty(),
            final(self).recipes() == old(self).recipes(),
            forall|q: u64| #[trigger] old(self).recipes().contains(q) ==> final(self).set_of(q) == old(self).set_of(q),
            final(self).spec_name() == old(self).spec_name(),
    {
        self.cache = EntryTable::new();
        self.inflight = KeySet::new();
        self.completed = Vec::new();
    }

    /// The current state of fingerprint `key` for identity `id`; reads only.
    pub fn fastest(&self, id: u64, key: u64) -> (r: TuneCacheResult)
        ensures
            r == result_of(lookup(self.entries(), (id, key))),
    {
        entry_result(self.cache.get((id, key)))
    }
}

impl<T> LocalTuner<T> {
    /// Loads a persisted winner for `(id, key)` as unchecked. A pair that
    /// already has an entry, or is in flight, keeps what it has.
    pub fn load_persisted(&mut self, id: u64, key: u64, fastest_index: usize, checksum: u64)
        requires
            old(self).wf(),
        ensures
            final(self).wf(),
            final(self).entries() == (if old(self).entries().contains_key((id, key)) || old(self).in_flight().contains((id, key)) {
                old(self).entries()
            } else {
                old(self).entries().insert((id, key), CacheEntry::Unchecked { fastest_index, checksum })
            }),
            final(self).in_flight() == old(self).in_flight(),
            final(self).queued() == old(self).queued(),
            final(self).recipes() == old(self).recipes(),
            forall|q: u64| #[trigger] old(self).recipes().contains(q) ==> final(self).set_of(q) == old(self).set_of(q),
            final(self).spec_name() == old(self).spec_name(),
    {
        let k: TuneKey = (id, key);
        if self.cache.get(k).is_none() && !self.inflight.contains(k) {
            self.cache.insert(k, CacheEntry::Unchecked { fastest_index, checksum });
            proof {
                assert forall|q: TuneKey| #[trigger] self.inflight@.contains(q) implies !(lookup(self.cache@, q) matches Some(CacheEntry::Unchecked { .. })) by {
                    assert(q != k);
                    assert(old(self).inflight@.contains(q));
                }
            }
        }
    }

    /// The exclusive step of an execution of `(id, key)` against a tunable
    /// set with `checksum`: validates an unchecked entry, then returns the
    /// state seen and whether this caller must start benchmarking, which is
    /// so exactly on a miss that no caller has taken on yet.
    pub fn claim(&mut self, id: u64, key: u64, checksum: u64) -> (r: (TuneCacheResult, bool))
        requires
            old(self).wf(),
        ensures
            final(self).wf(),
            (final(self).entries(), final(self).in_flight(), r.0, r.1)
                == claimed(old(self).entries(), old(self).in_flight(), (id, key), checksum),
            r.0 != TuneCacheResult::Unchecked,
            final(self).queued() == old(self).queued(),
            final(self).recipes() == old(self).recipes(),
            forall|q: u64| #[trigger] old(self).recipes().contains(q) ==> final(self).set_of(q) == old(self).set_of(q),
            final(self).spec_name() == old(self).spec_name(),
    {
        let k: TuneKey = (id, key);
        match self.cache.get(k) {
            Some(CacheEntry::Unchecked { fastest_index, checksum: persisted }) => {
                if persisted == checksum {
                    self.cache.insert(k, CacheEntry::Done { fastest_index, checksum: persisted });
                } else {
                    self.cache.remove(k);
                }
            },
            _ => {},
        }
        let fastest = entry_result(self.cache.get(k));
        let mut run_autotune = false;
        let miss = match fastest {
            TuneCacheResult::Miss => true,
            _ => false,
        };
        if miss && !self.inflight.contains(k) {
            self.inflight.insert(k);
            run_autotune = true;
        }
        proof {
            assert forall|q: TuneKey| #[trigger] self.inflight@.contains(q) implies !(lookup(self.cache@, q) matches Some(CacheEntry::Unchecked { .. })) by {
                if q != k {
                    assert(old(self).inflight@.contains(q));
                    assert(lookup(self.cache@, q) == lookup(old(self).cache@, q));
                }
            }
        }
        (fastest, run_autotune)
    }

    /// Benchmarking of `(id, key)` has begun: a miss becomes pending.
    pub fn mark_pending(&mut self, id: u64, key: u64)
        requires
            old(self).wf(),
        ensures
            final(self).wf(),
            final(self).entries() == marked(old(self).entries(), (id, key)),
            final(self).in_flight() == old(self).in_flight(),
            final(self).queued() == old(self).queued(),
            final(self).recipes() == old(self).recipes(),
            forall|q: u64| #[trigger] old(self).recipes().contains(q) ==> final(self).set_of(q) == old(self).set_of(q),
            final(self).spec_name() == old(self).spec_name(),
    {
        let k: TuneKey = (id, key);
        if self.cache.get(k).is_none() {
            self.cache.insert(k, CacheEntry::Pending);
            proof {
                assert forall|q: TuneKey| #[trigger] self.inflight@.contains(q) implies !(lookup(self.cache@, q) matches Some(CacheEntry::Unchecked { .. })) by {
                    if q != k {
                        assert(lookup(self.cache@, q) == lookup(old(self).cache@, q));
                    }
                }
            }
        }
    }

    /// Queues a completed benchmarking pass until the next harvest.
    pub fn push_result(&mut self, outcome: Outcome)
        requires
            old(self).wf(),
        ensures
            final(self).wf(),
            final(self).queued() == old(self).queued().push(outcome),
            final(self).entries() == old(self).entries(),
            final(self).in_flight() == old(self).in_flight(),
            final(self).recipes() == old(self).recipes(),
            forall|q: u64| #[trigger] old(self).recipes().contains(q) ==> final(self).set_of(q) == old(self).set_of(q),
            final(self).spec_name() == old(self).spec_name(),
    {
        self.completed.push(outcome);
    }

    /// Harvests every queued pass in arrival order: each winner becomes the
    /// trusted entry of its pair. Returns the winners to persist.
    pub fn handle_results(&mut self) -> (r: Vec<Record>)
        requires
            old(self).wf(),
        ensures
            final(self).wf(),
            final(self).entries() == applied_all(old(self).entries(), old(self).queued()),
            r@ == records_of(old(self).queued()),
            final(self).queued() =~= Seq::empty(),
            final(self).in_flight() == old(self).in_flight(),
            final(self).recipes() == old(self).recipes(),
            forall|q: u64| #[trigger] old(self).recipes().contains(q) ==> final(self).set_of(q) == old(self).set_of(q),
            final(self).spec_name() == old(self).spec_name(),
    {
        let mut records: Vec<Record> = Vec::new();
        let n = self.completed.len();
        let mut i: usize = 0;
        while i < n
            invariant
                n == self.completed@.len(),
                i <= n,
                self.completed@ == old(self).completed@,
                self.inflight@ == old(self).inflight@,
                self.slots@ == old(self).slots@,
                self.sets@ == old(self).sets@,
                self.name == old(self).name,
                self.cache@ == applied_all(old(self).cache@, self.completed@.subrange(0, i as int)),
                records@ == records_of(self.completed@.subrange(0, i as int)),
                inflight_checked(self.cache@, self.inflight@),
            decreases n - i,
        {
            let ghost pre = self.completed@.subrange(0, i as int);
            let ghost cur = self.completed@.subrange(0, i as int + 1);
            assert(cur.drop_last() =~= pre);
            let id = self.completed[i].id;
            let key = self.completed[i].key;
            let checksum = self.completed[i].checksum;
            match fastest_of(&self.completed[i].timings) {
                Some(fastest_index) => {
                    let ghost before = self.cache@;
                    self.cache.insert((id, key), CacheEntry::Done { fastest_index, checksum });
                    records.push(Record { id, key, fastest_index, checksum });
                    proof {
                        assert forall|q: TuneKey| #[trigger] self.inflight@.contains(q) implies !(lookup(self.cache@, q) matches Some(CacheEntry::Unchecked { .. })) by {
                            if q != (id, key) {
                                assert(lookup(self.cache@, q) == lookup(before, q));
                            }
                        }
                    }
                },
                None => {},
            }
            i = i + 1;
        }
        assert(self.completed@.subrange(0, n as int) =~= self.completed@);
        self.completed = Vec::new();
        records
    }

    /// The variant to run for `(id, key)` after the harvest, given whether
    /// this caller was the one responsible for benchmarking.
    pub fn select_index(&self, id: u64, key: u64, run_autotune: bool) -> (r: Result<usize, TuneDefect>)
        ensures
            r == selected(result_of(lookup(self.entries(), (id, key))), run_autotune),
    {
        match self.fastest(id, key) {
            TuneCacheResult::Hit { fastest_index } => Ok(fastest_index),
            TuneCacheResult::Pending => Ok(0),
            TuneCacheResult::Miss => if run_autotune {
                Err(TuneDefect::BenchmarkNotStarted)
            } else {
                Ok(0)
            },
            TuneCacheResult::Unchecked => Err(TuneDefect::UncheckedEntry),
        }
    }
}

} // verus!
