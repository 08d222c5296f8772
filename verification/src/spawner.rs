//! Where a task goes: the choice between the foreground thread's local
//! pool, the background runtime and the loopback queue, made from the
//! spawner that the current thread holds.

use vstd::pervasive::unreached;
use vstd::prelude::*;

verus! {

/// Enumeration of the task / thread types. Every thread runs one type of
/// task only.
#[derive(PartialEq, Eq, Clone, Copy, Debug, Structural)]
pub enum Type {
    Uninit,
    Foreground,
    Background,
}

/// The spawner a thread holds: none before the framework is initialized,
/// the foreground spawner `F` on the foreground thread, a background
/// spawner `B` on a background thread.
pub enum Spawner<F, B> {
    Uninit,
    Foreground(F),
    Background(B),
}

/// How a dispatched task is spawned from the current thread.
pub enum Dispatch<'a, F, B> {
    /// Through the foreground spawner of this thread.
    FromForeground(&'a F),
    /// Through the background spawner of this thread.
    FromBackground(&'a B),
}

pub open spec fn spec_type<F, B>(w: &Spawner<F, B>) -> Type {
    match w {
        Spawner::Uninit => Type::Uninit,
        Spawner::Foreground(_) => Type::Foreground,
        Spawner::Background(_) => Type::Background,
    }
}

impl<F, B> Spawner<F, B> {
    /// The task type of the thread holding this spawner.
    pub fn which_type(&self) -> (t: Type)
        ensures
            t == spec_type(self),
    {
        match self {
            Spawner::Uninit => Type::Uninit,
            Spawner::Foreground(_) => Type::Foreground,
            Spawner::Background(_) => Type::Background,
        }
    }

    /// The foreground spawner; only the foreground thread holds one.
    pub fn foreground(&self) -> (f: &F)
        requires
            self is Foreground,
        ensures
            self matches Spawner::Foreground(g) && *f == g,
    {
        match self {
            Spawner::Foreground(fg) => fg,
            _ => {
                unreached()
            },
        }
    }

    /// The route a dispatched task takes: through whichever spawner this
    /// thread holds.
    pub fn dispatch(&self) -> (d: Dispatch<'_, F, B>)
        requires
            !(self is Uninit),
        ensures
            match self {
                Spawner::Foreground(g) => d matches Dispatch::FromForeground(h) && *h == g,
                Spawner::Background(g) => d matches Dispatch::FromBackground(h) && *h == g,
                Spawner::Uninit => false,
            },
    {
        match self {
            Spawner::Foreground(fg) => Dispatch::FromForeground(fg),
            Spawner::Background(bg) => Dispatch::FromBackground(bg),
            Spawner::Uninit => {
                unreached()
            },
        }
    }
}

/// The spawner that runs a foreground task spawned from the foreground
/// thread: that thread's own.
pub fn spawn_foreground<F, B>(w: &Spawner<F, B>) -> (f: &F)
    requires
        w is Foreground,
    ensures
        w matches Spawner::Foreground(g) && *f == g,
{
    w.foreground()
}

/// The spawner that runs a background task: the foreground thread hands it
/// to the runtime, a background thread spawns it in its runtime context.
pub fn dispatch_background<F, B>(w: &Spawner<F, B>) -> (d: Dispatch<'_, F, B>)
    requires
        !(w is Uninit),
    ensures
        match w {
            Spawner::Foreground(g) => d matches Dispatch::FromForeground(h) && *h == g,
            Spawner::Background(g) => d matches Dispatch::FromBackground(h) && *h == g,
            Spawner::Uninit => false,
        },
{
    w.dispatch()
}

/// The spawner that runs a foreground task: the foreground thread spawns it
/// locally, a background thread sends it over the loopback queue.
pub fn dispatch_foreground<F, B>(w: &Spawner<F, B>) -> (d: Dispatch<'_, F, B>)
    requires
        !(w is Uninit),
    ensures
        match w {
            Spawner::Foreground(g) => d matches Dispatch::FromForeground(h) && *h == g,
            Spawner::Background(g) => d matches Dispatch::FromBackground(h) && *h == g,
            Spawner::Uninit => false,
        },
{
    w.dispatch()
}

/// The spawner whose loopback queue is drained: the foreground thread's.
pub fn drain_foreground_loopback<F, B>(w: &Spawner<F, B>) -> (f: &F)
    requires
        w is Foreground,
    ensures
        w matches Spawner::Foreground(g) && *f == g,
{
    w.foreground()
}

/// The spawner whose local pool is run until stalled: the foreground
/// thread's.
pub fn run_foreground<F, B>(w: &Spawner<F, B>) -> (f: &F)
    requires
        w is Foreground,
    ensures
        w matches Spawner::Foreground(g) && *f == g,
{
    w.foreground()
}

/// The task type of the current thread, from the spawner it holds.
pub fn current_type<F, B>(w: &Spawner<F, B>) -> (t: Type)
    ensures
        t == spec_type(w),
{
    w.which_type()
}

} // verus!
