use vstd::prelude::*;

pub mod config;
pub mod engine;
pub mod signal;

verus! {

/// Polling period of the decision loop, in milliseconds.
pub const TICK_MILLIS: u64 = 100;

/// Extra delay inserted before the first write when waking from a
/// fully-off cached hardware state, in milliseconds.
pub const WAKE_DELAY_MILLIS: u64 = 250;

} // verus!
