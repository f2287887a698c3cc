use vstd::prelude::*;

verus! {

/// The record that the workers and the orchestrator share, always accessed
/// under exclusive access.
#[derive(Debug)]
pub struct SharedState {
    pub counter: u32,
    pub failure_code: i32,
}

/// The counter after one more completed write cycle; it stays at its
/// largest value rather than wrap.
pub open spec fn bumped(counter: nat) -> nat {
    if counter < u32::MAX {
        counter + 1
    } else {
        counter
    }
}

impl SharedState {
    /// A fresh record: nothing written, no failure.
    pub fn new() -> (r: SharedState)
        ensures
            r.counter == 0,
            r.failure_code == 0,
    {
        SharedState { counter: 0, failure_code: 0 }
    }

    /// Counts one completed write cycle.
    pub fn record_write(&mut self)
        ensures
            final(self).counter as nat == bumped(old(self).counter as nat),
            final(self).counter >= old(self).counter,
            final(self).failure_code == old(self).failure_code,
    {
        if self.counter < u32::MAX {
            self.counter = self.counter + 1;
        }
    }

    /// Records a failed write cycle; the loop goes on.
    pub fn record_failure(&mut self, code: i32)
        ensures
            final(self).failure_code == code,
            final(self).counter == old(self).counter,
    {
        self.failure_code = code;
    }
}

} // verus!
