//! The decisions of a bounded wait: a caller polls a read-only condition at
//! a fixed interval until it holds or a timeout has passed. The clock and
//! the sleeping are the caller's; what to do after each poll is decided
//! here.

use crate::error::DroneError;
use vstd::prelude::*;

verus! {

/// The time between two polls, in milliseconds.
pub const POLL_INTERVAL_MS: u64 = 250;

/// What to do after a poll.
#[derive(Debug, PartialEq, Eq)]
pub enum PollStep {
    /// The condition holds: the wait is over.
    Verified,
    /// The poll itself failed: the wait ends with that failure.
    Failed(DroneError),
    /// The condition does not hold and the timeout has passed: the wait
    /// ends with a timeout, which is no failure of the transport.
    TimedOut { after_ms: u64 },
    /// The condition does not hold yet: sleep for so many milliseconds and
    /// poll again.
    Wait { sleep_ms: u64 },
}

/// What follows a poll that came to `poll`, `elapsed_ms` after the wait
/// began, with a timeout of `timeout_ms`. A poll is never cut short: the
/// timeout is looked at only after a poll that did not hold.
pub open spec fn step_after(poll: Result<bool, DroneError>, elapsed_ms: u64, timeout_ms: u64)
    -> PollStep {
    match poll {
        Err(e) => PollStep::Failed(e),
        Ok(true) => PollStep::Verified,
        Ok(false) => if elapsed_ms > timeout_ms {
            PollStep::TimedOut { after_ms: timeout_ms }
        } else {
            PollStep::Wait { sleep_ms: POLL_INTERVAL_MS }
        },
    }
}

/// Decides what follows a poll.
pub fn poll_step(poll: Result<bool, DroneError>, elapsed_ms: u64, timeout_ms: u64) -> (r: PollStep)
    ensures
        r == step_after(poll, elapsed_ms, timeout_ms),
{
    match poll {
        Err(e) => PollStep::Failed(e),
        Ok(true) => PollStep::Verified,
        Ok(false) => if elapsed_ms > timeout_ms {
            PollStep::TimedOut { after_ms: timeout_ms }
        } else {
            PollStep::Wait { sleep_ms: POLL_INTERVAL_MS }
        },
    }
}

/// The most polls that a wait with a timeout of `timeout_ms` makes, if
/// each poll takes no time and each sleep lasts the interval.
pub open spec fn most_polls(timeout_ms: u64) -> int {
    timeout_ms / POLL_INTERVAL_MS + 2
}

/// A wait is bounded: the poll made after `k` sleeps of the interval is the
/// last one once `k` sleeps outlast the timeout, because a condition that
/// does not hold then ends in a timeout, never in another sleep. A timeout
/// is told apart from every failure of a poll.
pub proof fn lemma_wait_is_bounded(poll: Result<bool, DroneError>, k: int, timeout_ms: u64)
    requires
        0 <= k,
        k * POLL_INTERVAL_MS <= u64::MAX,
        k + 1 >= most_polls(timeout_ms),
    ensures
        !(step_after(poll, (k * POLL_INTERVAL_MS) as u64, timeout_ms) is Wait),
        step_after(poll, (k * POLL_INTERVAL_MS) as u64, timeout_ms) is TimedOut <==> poll == Ok::<
            bool,
            DroneError,
        >(false),
{
    assert(k * 250 > timeout_ms) by (nonlinear_arith)
        requires
            k + 1 >= timeout_ms / 250 + 2,
            0 <= timeout_ms,
    ;
}

} // verus!
