//! Ready-waitable futures: a future polled by another coroutine, whose
//! completion or graceful cancellation is reported as readiness, and whose
//! result is taken once that readiness has been witnessed.

use vstd::prelude::*;

verus! {

/// The shared state of a ready-waitable future.
pub struct ReadyWaitState<T> {
    result: Option<T>,
    done: bool,
    canceled: bool,
    polling: bool,
}

impl<T> ReadyWaitState<T> {
    /// The result, once the wrapped future completed and until it is taken.
    pub closed spec fn spec_result(&self) -> Option<T> {
        self.result
    }

    /// Whether the wrapped future has been polled to ready.
    pub closed spec fn spec_done(&self) -> bool {
        self.done
    }

    /// Whether a graceful cancellation has been requested.
    pub closed spec fn spec_canceled(&self) -> bool {
        self.canceled
    }

    /// Whether the remote poller still drives the wrapped future.
    pub closed spec fn spec_polling(&self) -> bool {
        self.polling
    }

    /// Once completed, the result is there unless it has been taken;
    /// without completion there is no result.
    pub closed spec fn wf(&self) -> bool {
        !self.done ==> self.result is None
    }

    /// Without completion there is no result.
    pub proof fn lemma_no_result_before_done(&self)
        requires
            self.wf(),
        ensures
            !self.spec_done() ==> self.spec_result() is None,
    {
    }

    /// A future just wrapped, driven by its remote poller.
    pub fn new() -> (s: Self)
        ensures
            s.wf(),
            s.spec_result() is None,
            !s.spec_done(),
            !s.spec_canceled(),
            s.spec_polling(),
    {
        ReadyWaitState { result: None, done: false, canceled: false, polling: true }
    }

    /// Records that the remote poller polled the wrapped future to ready.
    pub fn complete(&mut self, value: T)
        requires
            old(self).wf(),
            !old(self).spec_done(),
            old(self).spec_polling(),
        ensures
            final(self).wf(),
            final(self).spec_result() == Some(value),
            final(self).spec_done(),
            final(self).spec_canceled() == old(self).spec_canceled(),
            final(self).spec_polling(),
    {
        self.result = Some(value);
        self.done = true;
    }

    /// Whether the remote poller has a result, so that it stops polling.
    pub fn has_result(&self) -> (r: bool)
        ensures
            r == self.spec_result() is Some,
    {
        self.result.is_some()
    }

    /// Whether the wrapped future has been polled to ready.
    pub fn is_done(&self) -> (r: bool)
        ensures
            r == self.spec_done(),
    {
        self.done
    }

    /// Whether the remote poller still drives the wrapped future.
    pub fn is_polling(&self) -> (r: bool)
        ensures
            r == self.spec_polling(),
    {
        self.polling
    }

    /// Whether the readiness source reports ready: completed or canceled.
    pub fn is_ready(&self) -> (r: bool)
        ensures
            r == (self.spec_done() || self.spec_canceled()),
    {
        self.done || self.canceled
    }

    /// Cancels the wrapped future: the remote poller stops and readiness
    /// is reported.
    pub fn cancel(&mut self)
        requires
            old(self).wf(),
        ensures
            final(self).wf(),
            final(self).spec_result() == old(self).spec_result(),
            final(self).spec_done() == old(self).spec_done(),
            final(self).spec_canceled(),
            !final(self).spec_polling(),
    {
        self.polling = false;
        self.canceled = true;
    }

    /// Whether the result may be taken now: the wrapped future completed
    /// and its result is still there, or it did not complete and nothing
    /// polls it any more. Taking it otherwise is a misuse.
    pub fn can_take(&self) -> (r: bool)
        ensures
            r == ((self.spec_done() && self.spec_result() is Some) || (!self.spec_done()
                && !self.spec_polling())),
    {
        if self.done {
            self.result.is_some()
        } else {
            !self.polling
        }
    }

    /// Takes the outcome: the result when the wrapped future completed,
    /// `None` when it was canceled first.
    pub fn take(&mut self) -> (r: Option<T>)
        requires
            old(self).wf(),
            (old(self).spec_done() && old(self).spec_result() is Some) || (!old(self).spec_done()
                && !old(self).spec_polling()),
        ensures
            final(self).wf(),
            r == old(self).spec_result(),
            r is Some == old(self).spec_done(),
            final(self).spec_result() is None,
            final(self).spec_done() == old(self).spec_done(),
            final(self).spec_canceled() == old(self).spec_canceled(),
            final(self).spec_polling() == old(self).spec_polling(),
    {
        self.result.take()
    }
}

/// After a graceful cancellation the outcome can be taken at once, and it
/// is a result exactly when the wrapped future was polled to ready before
/// the cancellation: once canceled, nothing polls it any more.
pub proof fn lemma_canceled_outcome<T>(s: ReadyWaitState<T>)
    requires
        s.wf(),
        s.spec_canceled(),
        !s.spec_polling(),
        s.spec_done() ==> s.spec_result() is Some,
    ensures
        (s.spec_done() && s.spec_result() is Some) || (!s.spec_done() && !s.spec_polling()),
        s.spec_result() is Some <==> s.spec_done(),
{
}

} // verus!
