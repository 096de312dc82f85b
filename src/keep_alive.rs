use vstd::prelude::*;

verus! {

/// The keep-alive pool: one busy-wait thread per assigned core while it runs,
/// none while it is stopped.
///
/// The caller owns the threads: it spawns them when the pool starts and joins
/// them all when it stops.
pub struct SpinLooper {
    /// The cores that get one keep-alive thread each, in order.
    pub core_ids: Vec<usize>,
    /// Whether the threads exist.
    pub running: bool,
}

impl SpinLooper {
    /// The number of keep-alive threads alive.
    pub open spec fn live_threads(&self) -> nat {
        if self.running {
            self.core_ids@.len()
        } else {
            0
        }
    }

    /// A stopped pool for `core_ids`.
    pub fn new(core_ids: Vec<usize>) -> (r: SpinLooper)
        ensures
            r.core_ids@ == core_ids@,
            !r.running,
    {
        SpinLooper { core_ids, running: false }
    }

    /// Starts the pool, which must be stopped: the caller spawns one thread
    /// pinned to each of `core_ids`.
    pub fn start(&mut self)
        requires
            !old(self).running,
        ensures
            final(self).running,
            final(self).core_ids@ == old(self).core_ids@,
            final(self).live_threads() == old(self).core_ids@.len(),
    {
        self.running = true;
    }

    /// Stops the pool: once the caller has joined every thread, none is left.
    pub fn stop_and_join(&mut self)
        ensures
            !final(self).running,
            final(self).core_ids@ == old(self).core_ids@,
            final(self).live_threads() == 0,
    {
        self.running = false;
    }

    pub fn is_running(&self) -> (r: bool)
        ensures
            r == self.running,
    {
        self.running
    }
}

} // verus!
