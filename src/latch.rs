use vstd::prelude::*;

verus! {

/// A single-slot, single-fire notification: the first `fire` wins and every
/// later one is a no-op.
pub struct TerminationLatch {
    pub fired: bool,
}

impl TerminationLatch {
    pub fn new() -> (r: Self)
        ensures
            !r.fired,
    {
        TerminationLatch { fired: false }
    }

    /// Fires the latch; returns true exactly when this call is the one that fired it.
    pub fn fire(&mut self) -> (first: bool)
        ensures
            first == !old(self).fired,
            final(self).fired,
    {
        let first = !self.fired;
        self.fired = true;
        first
    }
}

} // verus!
