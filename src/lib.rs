//! A terminal timer and scheduler engine: countdown timers, schedules of
//! timed actions, and the per-cycle event batches that drive them.
use vstd::prelude::*;

pub mod event;
pub mod timer;
pub mod config;
pub mod utils;
pub mod schedule;
pub mod main_loop;

verus! {

} // verus!
