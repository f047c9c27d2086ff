//! Properties of the autotune protocol, stated over the transitions of
//! `local` and proved.
use vstd::prelude::*;
use crate::entry::{CacheEntry, TuneCacheResult, result_of};
use crate::local::{Outcome, TuneDefect, TuneKey, applied, claimed, inflight_checked, lookup, marked, selected};
use crate::select::best_of;

verus! {

/// Once a benchmarking pass for `k` has been harvested with a winner `i`,
/// every later execution for `k` sees a hit on `i`, changes nothing, never
/// becomes responsible for benchmarking, and runs variant `i`.
pub proof fn lemma_winner_is_reused(
    m: Map<TuneKey, CacheEntry>,
    inflight: Set<TuneKey>,
    o: Outcome,
    i: int,
    c: u64,
    run_autotune: bool,
)
    requires
        best_of(o.timings@) == Some(i),
        0 <= i <= usize::MAX,
    ensures
        ({
            let k = (o.id, o.key);
            let m1 = applied(m, o);
            &&& claimed(m1, inflight, k, c) == (m1, inflight, TuneCacheResult::Hit { fastest_index: i as usize }, false)
            &&& marked(m1, k) == m1
            &&& selected(result_of(lookup(m1, k)), run_autotune) == Ok::<usize, TuneDefect>(i as usize)
        }),
{
}

/// A caller that became responsible for benchmarking `k` left `k` in flight;
/// while `k` stays in flight, whatever the cache holds, no other execution
/// becomes responsible for it.
pub proof fn lemma_single_benchmark(
    m: Map<TuneKey, CacheEntry>,
    inflight: Set<TuneKey>,
    k: TuneKey,
    c: u64,
    later: Map<TuneKey, CacheEntry>,
    later_inflight: Set<TuneKey>,
    c2: u64,
)
    requires
        claimed(m, inflight, k, c).3,
        claimed(m, inflight, k, c).1.subset_of(later_inflight),
    ensures
        later_inflight.contains(k),
        !claimed(later, later_inflight, k, c2).3,
{
    assert(claimed(m, inflight, k, c).1.contains(k));
}

/// A persisted winner whose checksum differs from the current tunable set's
/// is discarded: the execution treats `k` as a miss and benchmarks it anew.
pub proof fn lemma_stale_checksum_is_miss(
    m: Map<TuneKey, CacheEntry>,
    inflight: Set<TuneKey>,
    k: TuneKey,
    fastest_index: usize,
    persisted: u64,
    c: u64,
)
    requires
        lookup(m, k) == Some(CacheEntry::Unchecked { fastest_index, checksum: persisted }),
        persisted != c,
        inflight_checked(m, inflight),
    ensures
        claimed(m, inflight, k, c) == (m.remove(k), inflight.insert(k), TuneCacheResult::Miss, true),
{
    assert(!inflight.contains(k));
    assert(lookup(m.remove(k), k) is None);
}

/// A persisted winner whose checksum matches the current tunable set's is
/// trusted as it was persisted.
pub proof fn lemma_matching_checksum_is_hit(
    m: Map<TuneKey, CacheEntry>,
    inflight: Set<TuneKey>,
    k: TuneKey,
    fastest_index: usize,
    c: u64,
)
    requires
        lookup(m, k) == Some(CacheEntry::Unchecked { fastest_index, checksum: c }),
    ensures
        claimed(m, inflight, k, c).2 == (TuneCacheResult::Hit { fastest_index }),
        !claimed(m, inflight, k, c).3,
{
    assert(lookup(m.insert(k, CacheEntry::Done { fastest_index, checksum: c }), k)
        == Some(CacheEntry::Done { fastest_index, checksum: c }));
}

/// The steps of an execution for one pair leave the entry and the in-flight
/// marker of every other pair as they were: a nested execution for another
/// pair cannot disturb an outer one.
pub proof fn lemma_other_pairs_untouched(
    m: Map<TuneKey, CacheEntry>,
    inflight: Set<TuneKey>,
    k: TuneKey,
    other: TuneKey,
    c: u64,
)
    requires
        k != other,
    ensures
        lookup(claimed(m, inflight, other, c).0, k) == lookup(m, k),
        claimed(m, inflight, other, c).1.contains(k) == inflight.contains(k),
        lookup(marked(m, other), k) == lookup(m, k),
{
}

} // verus!
