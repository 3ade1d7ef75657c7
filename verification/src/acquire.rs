//! The bounded retry loop that turns a resolved adapter identifier into an
//! open device handle: the shell attempts an open, yields, and retries,
//! with an upfront deadline check each iteration.

use vstd::prelude::*;
use crate::error::TapError;

verus! {

/// The deadline on handle acquisition, in milliseconds.
pub const ACQUIRE_DEADLINE_MS: u64 = 2000;

/// The per-wait bound on one registry-change notification, in milliseconds.
pub const REGISTRY_WAIT_MS: u64 = 2000;

/// Whether the acquisition deadline has passed: the elapsed wall time is
/// strictly above the deadline. Checked before each open attempt; an
/// expired deadline fails the acquisition with `TimedOut`, so the loop
/// cannot block indefinitely, and when it gives up the elapsed time is at
/// least the deadline.
pub fn deadline_exceeded(start_ms: u64, now_ms: u64, deadline_ms: u64) -> (r: bool)
    requires
        start_ms <= now_ms,
    ensures
        r == (now_ms - start_ms > deadline_ms),
{
    now_ms - start_ms > deadline_ms
}

/// What the shell observed in one iteration of the acquisition loop: the
/// clock before the attempt, and whether the open attempt (made only if
/// the deadline had not passed) succeeded.
#[derive(Clone, Copy, Debug, PartialEq, Eq, Structural)]
pub struct AcquireTick {
    /// The wall clock at the top of the iteration, in milliseconds.
    pub now_ms: u64,
    /// Whether the open attempt succeeded.
    pub opened: bool,
}

/// How an acquisition run ended.
#[derive(Clone, Copy, Debug, PartialEq, Eq, Structural)]
pub enum AcquireOutcome {
    /// The handle was opened at this iteration.
    Acquired(usize),
    /// The deadline had passed at this iteration; the result is `TimedOut`.
    GaveUp(usize),
    /// The observations ran out with the deadline not passed and no open
    /// succeeded.
    Pending,
}

/// Whether the deadline had passed at the top of iteration `k`.
pub open spec fn tick_expired(ticks: Seq<AcquireTick>, start_ms: u64, deadline_ms: u64, k: int) -> bool {
    ticks[k].now_ms - start_ms > deadline_ms
}

/// Replays the handle-acquisition loop over the iterations observed. Each
/// iteration first checks the deadline — giving up with `TimedOut` only
/// when the elapsed time is strictly above the deadline — and otherwise
/// attempts the open, retrying on failure. The first iteration to decide
/// decides the run.
pub fn acquire_handle(start_ms: u64, deadline_ms: u64, ticks: &Vec<AcquireTick>) -> (r:
    AcquireOutcome)
    requires
        forall|k: int| 0 <= k < ticks@.len() ==> start_ms <= #[trigger] ticks@[k].now_ms,
    ensures
        match r {
            AcquireOutcome::Acquired(k) => {
                &&& k < ticks@.len()
                &&& !tick_expired(ticks@, start_ms, deadline_ms, k as int)
                &&& ticks@[k as int].opened
                &&& forall|j: int|
                    0 <= j < k ==> !tick_expired(ticks@, start_ms, deadline_ms, j)
                        && !ticks@[j].opened
            },
            AcquireOutcome::GaveUp(k) => {
                &&& k < ticks@.len()
                &&& tick_expired(ticks@, start_ms, deadline_ms, k as int)
                &&& forall|j: int|
                    0 <= j < k ==> !tick_expired(ticks@, start_ms, deadline_ms, j)
                        && !ticks@[j].opened
            },
            AcquireOutcome::Pending => forall|j: int|
                0 <= j < ticks@.len() ==> !tick_expired(ticks@, start_ms, deadline_ms, j)
                    && !ticks@[j].opened,
        },
{
    let n = ticks.len();
    let mut i: usize = 0;
    while i < n
        invariant
            i <= n,
            n == ticks@.len(),
            forall|k: int| 0 <= k < n ==> start_ms <= #[trigger] ticks@[k].now_ms,
            forall|j: int|
                0 <= j < i ==> !tick_expired(ticks@, start_ms, deadline_ms, j)
                    && !ticks@[j].opened,
        decreases n - i,
    {
        let t = ticks[i];
        if deadline_exceeded(start_ms, t.now_ms, deadline_ms) {
            return AcquireOutcome::GaveUp(i);
        }
        if t.opened {
            return AcquireOutcome::Acquired(i);
        }
        i = i + 1;
    }
    AcquireOutcome::Pending
}

/// The error a finished acquisition reports: `TimedOut` exactly when the
/// loop gave up on an expired deadline.
pub fn acquire_error(outcome: AcquireOutcome) -> (r: Option<TapError>)
    ensures
        r is Some <==> outcome is GaveUp,
        outcome is GaveUp ==> r == Some(TapError::TimedOut),
{
    match outcome {
        AcquireOutcome::GaveUp(_) => Some(TapError::TimedOut),
        _ => None,
    }
}

/// A run that gave up did so no earlier than the deadline: the elapsed
/// wall time at the deciding iteration strictly exceeds the deadline.
pub proof fn lemma_give_up_elapsed(
    start_ms: u64,
    deadline_ms: u64,
    ticks: Seq<AcquireTick>,
    k: int,
)
    requires
        0 <= k < ticks.len(),
        start_ms <= ticks[k].now_ms,
        tick_expired(ticks, start_ms, deadline_ms, k),
    ensures
        ticks[k].now_ms - start_ms > deadline_ms,
        ticks[k].now_ms >= start_ms + deadline_ms,
{
}

} // verus!
