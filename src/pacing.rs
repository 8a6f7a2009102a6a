use vstd::prelude::*;

verus! {

/// The fixed target duration of one tick, in nanoseconds.
#[derive(Clone, Copy, Debug, PartialEq, Eq, Structural)]
pub struct FrameBudget {
    pub nanos: u64,
}

impl FrameBudget {
    pub fn new(nanos: u64) -> (r: FrameBudget)
        ensures
            r.nanos == nanos,
    {
        FrameBudget { nanos }
    }

    /// How long to sleep after a tick whose work took `elapsed` nanoseconds:
    /// the rest of the budget, or nothing when the work used it all up. Time
    /// lost to a long tick is never made up by shortening a later one.
    pub fn sleep_time(&self, elapsed: u64) -> (r: u64)
        ensures
            r == (if elapsed < self.nanos {
                self.nanos - elapsed
            } else {
                0
            }),
            r <= self.nanos,
    {
        if elapsed < self.nanos {
            self.nanos - elapsed
        } else {
            0
        }
    }
}

} // verus!
