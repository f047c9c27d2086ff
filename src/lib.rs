//! Runtime autotuning: pick the fastest of several equivalent variants for a
//! task, remember the choice per fingerprint, and reuse it.
pub mod algorithm;
pub mod entry;
pub mod laws;
pub mod local;
pub mod select;
pub mod tables;

pub use algorithm::{SimpleBarrierAlgorithm, SimpleTmaAlgorithm};
pub use entry::{CacheEntry, TuneCacheResult};
pub use local::{LocalTuner, Outcome, Record, TuneDefect};
pub use select::fastest_of;
