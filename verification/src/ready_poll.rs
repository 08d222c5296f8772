//! Ready-pollable futures: a flag raised once the wrapped future is polled
//! to ready or destroyed, readable from outside the async runtime.

use vstd::prelude::*;

verus! {

/// Ready poller state.
pub struct ReadyPoll {
    ready: bool,
}

impl ReadyPoll {
    pub closed spec fn is_ready(&self) -> bool {
        self.ready
    }

    /// A flag not raised yet.
    pub fn new() -> (p: Self)
        ensures
            !p.is_ready(),
    {
        ReadyPoll { ready: false }
    }

    /// Whether the wrapped future has been polled to ready or destroyed.
    pub fn ready(&self) -> (r: bool)
        ensures
            r == self.is_ready(),
    {
        self.ready
    }

    /// Raises the flag, as the wrapped future is destroyed.
    pub fn notify(&mut self)
        ensures
            final(self).is_ready(),
    {
        self.ready = true;
    }

    /// Records one poll of the wrapped future: the flag is raised when the
    /// poll returned ready, and never lowered.
    pub fn polled(&mut self, poll_ready: bool)
        ensures
            final(self).is_ready() == (old(self).is_ready() || poll_ready),
    {
        if poll_ready {
            self.notify();
        }
    }
}

} // verus!
