//! The trust states of a cached fingerprint.
use vstd::prelude::*;

verus! {

/// What the cache stores for one (identity, fingerprint) pair. A pair with no
/// stored entry is a miss.
#[derive(Clone, Copy, Debug, PartialEq, Eq, Structural)]
pub enum CacheEntry {
    /// A persisted winner whose checksum has not yet been compared with the
    /// current tunable set.
    Unchecked { fastest_index: usize, checksum: u64 },
    /// Benchmarking has started and no winner is known yet.
    Pending,
    /// A trusted winner, measured against the tunable set with `checksum`.
    Done { fastest_index: usize, checksum: u64 },
}

/// The answer to a lookup of one fingerprint.
#[derive(Clone, Copy, Debug, PartialEq, Eq, Structural)]
pub enum TuneCacheResult {
    Hit { fastest_index: usize },
    Miss,
    Pending,
    Unchecked,
}

/// The lookup result that a stored entry (or its absence) stands for.
pub open spec fn result_of(e: Option<CacheEntry>) -> TuneCacheResult {
    match e {
        None => TuneCacheResult::Miss,
        Some(CacheEntry::Unchecked { .. }) => TuneCacheResult::Unchecked,
        Some(CacheEntry::Pending) => TuneCacheResult::Pending,
        Some(CacheEntry::Done { fastest_index, .. }) => TuneCacheResult::Hit { fastest_index },
    }
}

/// The lookup result for a stored entry (or its absence).
pub fn entry_result(e: Option<CacheEntry>) -> (r: TuneCacheResult)
    ensures
        r == result_of(e),
{
    match e {
        None => TuneCacheResult::Miss,
        Some(CacheEntry::Unchecked { .. }) => TuneCacheResult::Unchecked,
        Some(CacheEntry::Pending) => TuneCacheResult::Pending,
        Some(CacheEntry::Done { fastest_index, .. }) => TuneCacheResult::Hit { fastest_index },
    }
}

} // verus!
