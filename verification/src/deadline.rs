//! The bounded wait for a running process.
//!
//! Waiting itself is the caller's business: it polls the process, sleeps and
//! measures the time. What to do next after each poll is decided here, so
//! that no process is waited for longer than the configured bound.

use vstd::prelude::*;

verus! {

/// The longest pause between two polls, in milliseconds.
pub const POLL_INTERVAL_MS: u64 = 20;

/// What to do after a poll.
#[derive(Clone, Copy, Debug, PartialEq, Eq)]
pub enum WaitStep {
    /// The process has exited: collect what it left behind.
    Finished,
    /// The bound is reached and the process still runs: give it up.
    Expired,
    /// Pause for this many milliseconds, then poll again.
    Sleep(u64),
}

/// The step that follows a poll, `elapsed_ms` after the process was started
/// and with `bound_ms` allotted to it.
///
/// A process that has exited is finished, however late. One that still runs
/// is given up once the bound is reached; before that, the pause is the poll
/// interval, cut short where the bound comes first.
pub open spec fn wait_step(exited: bool, elapsed_ms: u64, bound_ms: u64) -> WaitStep {
    if exited {
        WaitStep::Finished
    } else if elapsed_ms >= bound_ms {
        WaitStep::Expired
    } else if bound_ms - elapsed_ms < POLL_INTERVAL_MS {
        WaitStep::Sleep((bound_ms - elapsed_ms) as u64)
    } else {
        WaitStep::Sleep(POLL_INTERVAL_MS)
    }
}

/// Decides what to do after a poll.
pub fn next_wait_step(exited: bool, elapsed_ms: u64, bound_ms: u64) -> (r: WaitStep)
    ensures
        r == wait_step(exited, elapsed_ms, bound_ms),
{
    if exited {
        WaitStep::Finished
    } else if elapsed_ms >= bound_ms {
        WaitStep::Expired
    } else if bound_ms - elapsed_ms < POLL_INTERVAL_MS {
        WaitStep::Sleep(bound_ms - elapsed_ms)
    } else {
        WaitStep::Sleep(POLL_INTERVAL_MS)
    }
}

/// A process that never exits is not waited for beyond the bound: while the
/// bound is not reached each pause is longer than nothing and ends at the
/// bound or before it, and from the bound on the process is given up.
pub proof fn lemma_wait_is_bounded(elapsed_ms: u64, bound_ms: u64)
    ensures
        wait_step(false, elapsed_ms, bound_ms) !is Finished,
        wait_step(false, elapsed_ms, bound_ms) is Expired <==> elapsed_ms >= bound_ms,
        wait_step(false, elapsed_ms, bound_ms) matches WaitStep::Sleep(pause) ==> 0 < pause
            <= POLL_INTERVAL_MS && elapsed_ms + pause <= bound_ms,
{
}

} // verus!
