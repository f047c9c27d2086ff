use std::cell::Cell;
use std::sync::Arc;

use autotune::{fastest_of, LocalTuner, Outcome, SimpleBarrierAlgorithm, SimpleTmaAlgorithm, TuneCacheResult, TuneDefect};

type Matrix = Vec<u64>;
type Candidate = fn(&(usize, Matrix, Matrix)) -> Result<Matrix, String>;

fn product_ijk(input: &(usize, Matrix, Matrix)) -> Result<Matrix, String> {
    let (n, a, b) = input;
    let n = *n;
    let mut c = vec![0u64; n * n];
    for i in 0..n {
        for j in 0..n {
            let mut s = 0u64;
            for k in 0..n {
                s = s.wrapping_add(a[i * n + k].wrapping_mul(b[k * n + j]));
            }
            c[i * n + j] = s;
        }
    }
    Ok(c)
}

fn product_ikj(input: &(usize, Matrix, Matrix)) -> Result<Matrix, String> {
    let (n, a, b) = input;
    let n = *n;
    let mut c = vec![0u64; n * n];
    for i in 0..n {
        for k in 0..n {
            let x = a[i * n + k];
            for j in 0..n {
                c[i * n + j] = c[i * n + j].wrapping_add(x.wrapping_mul(b[k * n + j]));
            }
        }
    }
    Ok(c)
}

fn product_small_only(input: &(usize, Matrix, Matrix)) -> Result<Matrix, String> {
    if input.0 > 64 {
        return Err("unsupported shape".to_string());
    }
    product_ijk(input)
}

fn matrices(n: usize) -> (usize, Matrix, Matrix) {
    let a = (0..n * n).map(|x| (x % 7) as u64).collect();
    let b = (0..n * n).map(|x| (x % 5) as u64 + 1).collect();
    (n, a, b)
}

/// Runs one execution on a platform that blocks on benchmarking. `costs`
/// stands for the measurement of each candidate; a candidate that fails on
/// the input reports no timing. Returns the output and whether this call
/// benchmarked.
fn execute_blocking(
    tuner: &mut LocalTuner<Vec<Candidate>>,
    set: &Arc<Vec<Candidate>>,
    id: u64,
    checksum: u64,
    input: &(usize, Matrix, Matrix),
    costs: &[u64],
) -> (Matrix, bool) {
    let key = input.0 as u64;
    if let TuneCacheResult::Hit { fastest_index } = tuner.fastest(id, key) {
        return (set[fastest_index](input).unwrap(), false);
    }
    let (fastest, run_autotune) = tuner.claim(id, key, checksum);
    if let TuneCacheResult::Hit { fastest_index } = fastest {
        return (set[fastest_index](input).unwrap(), false);
    }
    if run_autotune {
        tuner.mark_pending(id, key);
        let timings = set
            .iter()
            .zip(costs)
            .map(|(op, cost)| op(input).ok().map(|_| *cost))
            .collect();
        tuner.push_result(Outcome { id, key, timings, checksum });
    }
    tuner.handle_results();
    let index = tuner.select_index(id, key, run_autotune).unwrap();
    (set[index](input).unwrap(), run_autotune)
}

fn candidates() -> Vec<Candidate> {
    vec![product_ijk, product_ikj, product_small_only]
}

#[test]
fn first_call_benchmarks_second_reuses_winner() {
    let mut tuner: LocalTuner<Vec<Candidate>> = LocalTuner::new("matmul");
    let set = tuner.init(1, candidates);
    let input = matrices(128);
    let expected = product_ijk(&input).unwrap();
    let (out, benchmarked) = execute_blocking(&mut tuner, &set, 7, 99, &input, &[9, 4, 1]);
    assert!(benchmarked);
    assert_eq!(out, expected);
    // The third candidate cannot handle this shape, so the second one wins.
    assert_eq!(tuner.fastest(7, 128), TuneCacheResult::Hit { fastest_index: 1 });
    let (out, benchmarked) = execute_blocking(&mut tuner, &set, 7, 99, &matrices(128), &[9, 4, 1]);
    assert!(!benchmarked);
    assert_eq!(out, expected);
}

#[test]
fn non_blocking_uses_default_until_harvest() {
    let mut tuner: LocalTuner<Vec<Candidate>> = LocalTuner::new("matmul");
    let (fastest, run) = tuner.claim(3, 16, 5);
    assert_eq!((fastest, run), (TuneCacheResult::Miss, true));
    tuner.mark_pending(3, 16);
    assert!(tuner.handle_results().is_empty());
    assert_eq!(tuner.select_index(3, 16, run), Ok(0));
    // Another caller during the pending window gets the default too.
    assert_eq!(tuner.claim(3, 16, 5), (TuneCacheResult::Pending, false));
    assert_eq!(tuner.select_index(3, 16, false), Ok(0));
    // The background pass completes and is harvested by a later call.
    tuner.push_result(Outcome { id: 3, key: 16, timings: vec![Some(8), Some(2), Some(6)], checksum: 5 });
    let records = tuner.handle_results();
    assert_eq!(records.len(), 1);
    assert_eq!((records[0].id, records[0].key, records[0].fastest_index, records[0].checksum), (3, 16, 1, 5));
    assert_eq!(tuner.select_index(3, 16, false), Ok(1));
    assert_eq!(tuner.fastest(3, 16), TuneCacheResult::Hit { fastest_index: 1 });
}

#[test]
fn failing_candidate_never_wins() {
    let timings = vec![Some(5_000_000u64), None, Some(3_000_000)];
    assert_eq!(fastest_of(&timings), Some(2));
    let mut tuner: LocalTuner<u8> = LocalTuner::new("t");
    assert!(tuner.claim(1, 1, 0).1);
    tuner.mark_pending(1, 1);
    tuner.push_result(Outcome { id: 1, key: 1, timings, checksum: 0 });
    tuner.handle_results();
    assert_eq!(tuner.fastest(1, 1), TuneCacheResult::Hit { fastest_index: 2 });
}

#[test]
fn fastest_of_edge_cases() {
    assert_eq!(fastest_of(&vec![]), None);
    assert_eq!(fastest_of(&vec![None, None]), None);
    assert_eq!(fastest_of(&vec![Some(4), Some(2), Some(2)]), Some(1));
    assert_eq!(fastest_of(&vec![None, Some(u64::MAX)]), Some(1));
    assert_eq!(fastest_of(&vec![Some(0), Some(0)]), Some(0));
}

#[test]
fn all_failed_pass_stays_pending() {
    let mut tuner: LocalTuner<u8> = LocalTuner::new("t");
    assert!(tuner.claim(2, 9, 0).1);
    tuner.mark_pending(2, 9);
    tuner.push_result(Outcome { id: 2, key: 9, timings: vec![None, None], checksum: 0 });
    assert!(tuner.handle_results().is_empty());
    assert_eq!(tuner.fastest(2, 9), TuneCacheResult::Pending);
    assert_eq!(tuner.select_index(2, 9, true), Ok(0));
}

#[test]
fn init_builds_once_per_recipe() {
    let built = Cell::new(0u32);
    let mut tuner: LocalTuner<Vec<u32>> = LocalTuner::new("t");
    let build = || {
        built.set(built.get() + 1);
        vec![1, 2, 3]
    };
    let first = tuner.init(11, build);
    let second = tuner.init(11, build);
    assert!(Arc::ptr_eq(&first, &second));
    assert_eq!(built.get(), 1);
    let other = tuner.init(12, || vec![4]);
    assert_eq!(*other, vec![4]);
    assert!(!Arc::ptr_eq(&first, &other));
    assert!(Arc::ptr_eq(&first, &tuner.init(11, build)));
    assert_eq!(built.get(), 1);
}

#[test]
fn stale_checksum_is_treated_as_miss() {
    let mut tuner: LocalTuner<u8> = LocalTuner::new("t");
    tuner.load_persisted(4, 32, 2, 10);
    assert_eq!(tuner.fastest(4, 32), TuneCacheResult::Unchecked);
    assert_eq!(tuner.claim(4, 32, 11), (TuneCacheResult::Miss, true));
    assert_eq!(tuner.fastest(4, 32), TuneCacheResult::Miss);
}

#[test]
fn matching_checksum_is_trusted() {
    let mut tuner: LocalTuner<u8> = LocalTuner::new("t");
    tuner.load_persisted(4, 32, 2, 10);
    assert_eq!(tuner.claim(4, 32, 10), (TuneCacheResult::Hit { fastest_index: 2 }, false));
    assert_eq!(tuner.fastest(4, 32), TuneCacheResult::Hit { fastest_index: 2 });
}

#[test]
fn load_persisted_keeps_existing_entries() {
    let mut tuner: LocalTuner<u8> = LocalTuner::new("t");
    assert!(tuner.claim(1, 2, 0).1);
    tuner.load_persisted(1, 2, 3, 0);
    assert_eq!(tuner.fastest(1, 2), TuneCacheResult::Miss);
    tuner.mark_pending(1, 2);
    tuner.load_persisted(1, 2, 3, 0);
    assert_eq!(tuner.fastest(1, 2), TuneCacheResult::Pending);
}

#[test]
fn hit_is_reused_without_benchmarking() {
    let mut tuner: LocalTuner<u8> = LocalTuner::new("t");
    assert!(tuner.claim(5, 5, 1).1);
    tuner.mark_pending(5, 5);
    tuner.push_result(Outcome { id: 5, key: 5, timings: vec![Some(3), Some(1)], checksum: 1 });
    tuner.handle_results();
    for _ in 0..5 {
        assert_eq!(tuner.claim(5, 5, 1), (TuneCacheResult::Hit { fastest_index: 1 }, false));
        assert_eq!(tuner.select_index(5, 5, false), Ok(1));
    }
}

#[test]
fn only_one_caller_benchmarks() {
    let mut tuner: LocalTuner<u8> = LocalTuner::new("t");
    let claims: Vec<bool> = (0..8).map(|_| tuner.claim(6, 1, 0).1).collect();
    assert_eq!(claims.iter().filter(|b| **b).count(), 1);
    assert!(claims[0]);
    // Still a miss: those not responsible run the default.
    assert_eq!(tuner.select_index(6, 1, false), Ok(0));
}

#[test]
fn nested_execution_keeps_outer_bookkeeping() {
    let mut tuner: LocalTuner<u8> = LocalTuner::new("t");
    assert_eq!(tuner.claim(1, 64, 0), (TuneCacheResult::Miss, true));
    tuner.mark_pending(1, 64);
    // While the outer pass benchmarks, a candidate executes another identity.
    assert_eq!(tuner.claim(2, 64, 0), (TuneCacheResult::Miss, true));
    tuner.mark_pending(2, 64);
    tuner.push_result(Outcome { id: 2, key: 64, timings: vec![Some(2), Some(1)], checksum: 0 });
    tuner.handle_results();
    assert_eq!(tuner.select_index(2, 64, true), Ok(1));
    assert_eq!(tuner.fastest(1, 64), TuneCacheResult::Pending);
    assert!(!tuner.claim(1, 64, 0).1);
    tuner.push_result(Outcome { id: 1, key: 64, timings: vec![Some(1), Some(2)], checksum: 0 });
    tuner.handle_results();
    assert_eq!(tuner.select_index(1, 64, true), Ok(0));
    assert_eq!(tuner.fastest(1, 64), TuneCacheResult::Hit { fastest_index: 0 });
    assert_eq!(tuner.fastest(2, 64), TuneCacheResult::Hit { fastest_index: 1 });
}

#[test]
fn protocol_defects_are_reported() {
    let mut tuner: LocalTuner<u8> = LocalTuner::new("t");
    assert_eq!(tuner.select_index(1, 1, true), Err(TuneDefect::BenchmarkNotStarted));
    assert_eq!(tuner.select_index(1, 1, false), Ok(0));
    tuner.load_persisted(1, 1, 0, 0);
    assert_eq!(tuner.select_index(1, 1, false), Err(TuneDefect::UncheckedEntry));
}

#[test]
fn clear_forgets_results_but_keeps_sets() {
    let mut tuner: LocalTuner<Vec<u32>> = LocalTuner::new("clearing");
    let set = tuner.init(1, || vec![7]);
    assert!(tuner.claim(1, 1, 0).1);
    tuner.mark_pending(1, 1);
    tuner.push_result(Outcome { id: 1, key: 1, timings: vec![Some(1)], checksum: 0 });
    tuner.clear();
    assert!(tuner.handle_results().is_empty());
    assert_eq!(tuner.fastest(1, 1), TuneCacheResult::Miss);
    assert!(tuner.claim(1, 1, 0).1);
    assert!(Arc::ptr_eq(&set, &tuner.init(1, || vec![8])));
    assert_eq!(tuner.name(), "clearing");
}

#[test]
fn algorithm_descriptors_are_plain_values() {
    let _b: SimpleBarrierAlgorithm<u8, u16, u32> = SimpleBarrierAlgorithm {
        _tmm: std::marker::PhantomData,
        _l: std::marker::PhantomData,
        _dispatch: std::marker::PhantomData,
    };
    let _t: SimpleTmaAlgorithm<u8, u32> = SimpleTmaAlgorithm {
        _tmm: std::marker::PhantomData,
        _dispatch: std::marker::PhantomData,
    };
}
