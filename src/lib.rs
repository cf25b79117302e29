//! Counts victories, defeats and draws from a noisy per-tick classification
//! signal. A debouncer turns runs of identical labels into single events, a
//! fan-out hub hands every change of the counters to each live subscriber,
//! and the tick decisions of the sampling loop sit beside them.

use vstd::prelude::*;

pub mod broadcast;
pub mod capture;
mod clock;
pub mod config;
pub mod detection;
pub mod laws;
pub mod outcome;
pub mod predictor;
pub mod state;
pub mod text;

verus! {

} // verus!
