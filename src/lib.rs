//! Shutdown coordination for a small set of long-lived workers: a shared
//! record, a one-way shutdown latch, the decisions of the writer and poller
//! loops, the signal bridge, the force-exit watchdog and the exit code rule,
//! as a verified state machine driven by the runtime's events.
use vstd::prelude::*;

pub mod laws;
pub mod shared;
pub mod supervisor;

verus! {

} // verus!
