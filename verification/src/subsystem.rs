//! The decision the window subsystem takes after running the foreground
//! tasks once from the event loop.

use vstd::prelude::*;

verus! {

/// What the event loop does next.
#[derive(PartialEq, Eq, Debug, Clone, Copy, Structural)]
pub enum RunStep {
    /// The main task is done: tear the subsystem down and leave the loop.
    Exit,
    /// Jobs needing the active event loop ran: run the foreground again.
    Again,
    /// Nothing left to do until the next event.
    Wait,
}

/// The next step once the foreground tasks have run: leave when the main
/// task is done; otherwise run again when jobs for the active event loop
/// were drained, since they may have woken tasks, and wait if not.
/// `jobs_drained` only matters while the main task is not done.
pub fn run_step(main_done: bool, jobs_drained: bool) -> (s: RunStep)
    ensures
        main_done ==> s == RunStep::Exit,
        !main_done && jobs_drained ==> s == RunStep::Again,
        !main_done && !jobs_drained ==> s == RunStep::Wait,
{
    if main_done {
        RunStep::Exit
    } else if jobs_drained {
        RunStep::Again
    } else {
        RunStep::Wait
    }
}

} // verus!
