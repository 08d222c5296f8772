//! The states of multiplexed future and stream slots.
//!
//! A slot holds at most one future, or one stream that may be paused. The
//! slot's waker is woken whenever the slot has something to poll again;
//! each transition here returns whether that wake is due.

use vstd::prelude::*;

verus! {

/// What a stream slot holds.
pub enum Streaming<S> {
    /// A stream being received from.
    Normal(S),
    /// A stream not received from until it is resumed.
    Paused(S),
    /// No stream: the slot behaves as a stream that never yields.
    Empty,
}

/// A stream being received from becomes paused.
pub open spec fn spec_pause<S>(s: Streaming<S>) -> Streaming<S> {
    match s {
        Streaming::Normal(x) => Streaming::Paused(x),
        other => other,
    }
}

/// A paused stream is received from again.
pub open spec fn spec_resume<S>(s: Streaming<S>) -> Streaming<S> {
    match s {
        Streaming::Paused(x) => Streaming::Normal(x),
        other => other,
    }
}

/// Pausing a stream and resuming it receives from the same stream again;
/// pausing twice is pausing once, and an empty slot stays empty.
pub proof fn lemma_pause_resume<S>(s: Streaming<S>)
    ensures
        s is Normal ==> spec_resume(spec_pause(s)) == s,
        spec_pause(spec_pause(s)) == spec_pause(s),
        s is Empty ==> spec_pause(s) is Empty && spec_resume(s) is Empty,
{
}

impl<S> Streaming<S> {
    /// Pauses a stream being received from; anything else is left as is.
    pub fn pause(self) -> (r: Self)
        ensures
            r == spec_pause(self),
    {
        match self {
            Streaming::Normal(s) => Streaming::Paused(s),
            other => other,
        }
    }

    /// Resumes a paused stream; anything else is left as is.
    pub fn resume(self) -> (r: Self)
        ensures
            r == spec_resume(self),
    {
        match self {
            Streaming::Paused(s) => Streaming::Normal(s),
            other => other,
        }
    }

    pub fn is_normal(&self) -> (r: bool)
        ensures
            r == self is Normal,
    {
        match self {
            Streaming::Normal(_) => true,
            _ => false,
        }
    }
}

/// The state of a stream slot.
pub struct StreamState<S> {
    stream: Streaming<S>,
}

impl<S> StreamState<S> {
    pub closed spec fn spec_stream(&self) -> Streaming<S> {
        self.stream
    }

    /// A slot without a stream.
    pub fn new_pending() -> (r: Self)
        ensures
            r.spec_stream() is Empty,
    {
        StreamState { stream: Streaming::Empty }
    }

    /// Puts `streaming` in the slot; a wake is due when it is received from.
    fn replace(&mut self, streaming: Streaming<S>) -> (wake: bool)
        ensures
            final(self).spec_stream() == streaming,
            wake == streaming is Normal,
    {
        self.stream = streaming;
        self.stream.is_normal()
    }

    /// Pauses the receiving from the stream.
    pub fn pause(&mut self) -> (wake: bool)
        ensures
            final(self).spec_stream() == spec_pause(old(self).spec_stream()),
            !wake,
    {
        let mut taken = Streaming::Empty;
        std::mem::swap(&mut self.stream, &mut taken);
        let streaming = taken.pause();
        self.replace(streaming)
    }

    /// Resumes the receiving from the stream.
    pub fn resume(&mut self) -> (wake: bool)
        ensures
            final(self).spec_stream() == spec_resume(old(self).spec_stream()),
            wake == !(old(self).spec_stream() is Empty),
    {
        let mut taken = Streaming::Empty;
        std::mem::swap(&mut self.stream, &mut taken);
        let streaming = taken.resume();
        self.replace(streaming)
    }

    /// Stops and drops the stream.
    pub fn stop(&mut self) -> (wake: bool)
        ensures
            final(self).spec_stream() is Empty,
            !wake,
    {
        self.replace(Streaming::Empty)
    }

    /// Replaces the stream with `stream`, received from at once.
    pub fn restart(&mut self, stream: S) -> (wake: bool)
        ensures
            final(self).spec_stream() == Streaming::Normal(stream),
            wake,
    {
        self.replace(Streaming::Normal(stream))
    }

    /// Whether there is a stream to poll.
    pub fn has_stream_to_poll(&self) -> (r: bool)
        ensures
            r == self.spec_stream() is Normal,
    {
        self.stream.is_normal()
    }

    /// The stream to poll, if it is being received from.
    pub fn stream_to_poll(&mut self) -> (r: Option<&mut S>)
        ensures
            old(self).spec_stream() is Normal <==> r is Some,
            match r {
                Some(m) => old(self).spec_stream() == Streaming::Normal(*m)
                    && final(self).spec_stream() == Streaming::Normal(*final(m)),
                None => final(self).spec_stream() == old(self).spec_stream(),
            },
    {
        match &mut self.stream {
            Streaming::Normal(s) => Some(s),
            _ => None,
        }
    }

    /// Records what polling the stream gave: an item keeps the stream and
    /// is due a wake, so that the stream is polled again; the end of the
    /// stream empties the slot.
    pub fn polled(&mut self, got_item: bool) -> (wake: bool)
        ensures
            got_item ==> final(self).spec_stream() == old(self).spec_stream(),
            !got_item ==> final(self).spec_stream() is Empty,
            wake == got_item,
    {
        if !got_item {
            self.stream = Streaming::Empty;
        }
        got_item
    }
}

/// The state of a future slot.
pub struct FutureState<F> {
    future: Option<F>,
}

impl<F> FutureState<F> {
    pub closed spec fn spec_future(&self) -> Option<F> {
        self.future
    }

    /// A slot without a future: it behaves as a future that never completes.
    pub fn new_pending() -> (r: Self)
        ensures
            r.spec_future() is None,
    {
        FutureState { future: None }
    }

    /// Drops the future.
    pub fn cancel(&mut self)
        ensures
            final(self).spec_future() is None,
    {
        self.future = None;
    }

    /// Replaces the future with `future`; a wake is due so that it is polled.
    pub fn replace(&mut self, future: F) -> (wake: bool)
        ensures
            final(self).spec_future() == Some(future),
            wake,
    {
        self.future = Some(future);
        true
    }

    /// Whether there is a future to poll.
    pub fn has_future(&self) -> (r: bool)
        ensures
            r == self.spec_future() is Some,
    {
        self.future.is_some()
    }

    /// The future to poll, if there is one.
    pub fn future_to_poll(&mut self) -> (r: Option<&mut F>)
        ensures
            old(self).spec_future() is Some <==> r is Some,
            match r {
                Some(m) => old(self).spec_future() == Some(*m) && final(self).spec_future() == Some(
                    *final(m),
                ),
                None => final(self).spec_future() == old(self).spec_future(),
            },
    {
        self.future.as_mut()
    }

    /// Records that the future was polled to ready: it is dropped.
    pub fn completed(&mut self)
        ensures
            final(self).spec_future() is None,
    {
        self.future = None;
    }
}

} // verus!
