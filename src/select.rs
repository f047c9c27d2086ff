//! Choosing the winner of a benchmarking pass.
use vstd::prelude::*;

verus! {

/// The index of the lowest timing among the successful candidates (`Some`),
/// the earliest one on a tie; `None` when no candidate succeeded.
pub open spec fn best_of(t: Seq<Option<u64>>) -> Option<int>
    decreases t.len(),
{
    if t.len() == 0 {
        None
    } else {
        let prev = best_of(t.drop_last());
        match t.last() {
            None => prev,
            Some(c) => match prev {
                Some(p) => if t[p] is Some && t[p]->0 <= c { Some(p) } else { Some(t.len() - 1) },
                None => Some(t.len() - 1),
            },
        }
    }
}

/// Candidate `i` succeeded, no successful candidate was faster, and every
/// earlier successful candidate was strictly slower.
pub open spec fn is_fastest(t: Seq<Option<u64>>, i: int) -> bool {
    &&& 0 <= i < t.len()
    &&& t[i] is Some
    &&& forall|j: int| 0 <= j < t.len() && t[j] is Some ==> t[i]->0 <= t[j]->0
    &&& forall|j: int| 0 <= j < i && t[j] is Some ==> t[i]->0 < t[j]->0
}

/// What `best_of` picks is the fastest successful candidate; it picks nothing
/// exactly when every candidate failed.
pub proof fn lemma_best_of_is_fastest(t: Seq<Option<u64>>)
    ensures
        match best_of(t) {
            Some(i) => is_fastest(t, i),
            None => forall|j: int| 0 <= j < t.len() ==> t[j] is None,
        },
    decreases t.len(),
{
    if t.len() > 0 {
        let u = t.drop_last();
        lemma_best_of_is_fastest(u);
        assert forall|j: int| 0 <= j < u.len() implies u[j] == t[j] by {}
    }
}

/// The winner of a benchmarking pass: `timings[i]` is the measured cost of
/// candidate `i`, or `None` where it reported a failure.
pub fn fastest_of(timings: &Vec<Option<u64>>) -> (r: Option<usize>)
    ensures
        r matches Some(i) ==> best_of(timings@) == Some(i as int),
        r is None ==> best_of(timings@) is None,
        match r {
            Some(i) => is_fastest(timings@, i as int),
            None => forall|j: int| 0 <= j < timings@.len() ==> timings@[j] is None,
        },
{
    let mut best: Option<usize> = None;
    let mut i: usize = 0;
    while i < timings.len()
        invariant
            i <= timings@.len(),
            best matches Some(b) ==> best_of(timings@.subrange(0, i as int)) == Some(b as int),
            best is None ==> best_of(timings@.subrange(0, i as int)) is None,
            best matches Some(b) ==> b < i,
        decreases timings@.len() - i,
    {
        let ghost pre = timings@.subrange(0, i as int);
        let ghost cur = timings@.subrange(0, i as int + 1);
        assert(cur.drop_last() =~= pre);
        assert forall|j: int| 0 <= j < pre.len() implies cur[j] == pre[j] by {}
        match timings[i] {
            None => {},
            Some(c) => {
                match best {
                    Some(b) => {
                        match timings[b] {
                            Some(cb) => {
                                if c < cb {
                                    best = Some(i);
                                }
                            },
                            None => {
                                best = Some(i);
                            },
                        }
                    },
                    None => {
                        best = Some(i);
                    },
                }
            },
        }
        i = i + 1;
    }
    assert(timings@.subrange(0, timings@.len() as int) =~= timings@);
    proof {
        lemma_best_of_is_fastest(timings@);
    }
    best
}

} // verus!
