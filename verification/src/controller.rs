use vstd::prelude::*;

use crate::wakeup_count::CommitOutcome;
use crate::suspend::SleepOutcome;
use crate::time::MonotonicTimeMS;

verus! {

/// Milliseconds to pause after a refused suspend attempt, so the daemon
/// does not tight-loop against a transiently busy kernel.
pub const SUSPEND_RETRY_BACKOFF_MS: u64 = 1000;

/// The hysteresis computation failed its invariant: the most recent wakeup
/// event lies in the future relative to the current reading of the same
/// monotonic clock. That cannot happen in a sane system, and the daemon
/// must fail loudly rather than compute a garbage delay.
#[derive(Clone, Copy, Debug, PartialEq, Eq, Structural)]
pub enum HysteresisError {
    EventInFuture,
}

/// What the control loop does next after a phase of the cycle ends.
#[derive(Clone, Copy, Debug, PartialEq, Eq, Structural)]
pub enum CycleNext {
    /// The handshake's write-back was clean: it is safe to attempt the suspend now.
    AttemptSuspend,
    /// A benign failure: restart the whole cycle from the top, after the
    /// given pause.
    Restart { backoff_ms: u64 },
    /// The machine suspended and resumed: wait the given time, then start
    /// the next cycle, compensating for a resume that registers no fresh
    /// wakeup-source event.
    ResumeWait { wait_ms: u64 },
    /// Unrecoverable: the daemon must terminate.
    Abort,
}

/// The control loop's read-only configuration.
pub struct SuspendController {
    pub hysteresis_ms: u64,
}

impl SuspendController {
    pub fn new(hysteresis_ms: u64) -> (c: Self)
        ensures
            c.hysteresis_ms == hysteresis_ms,
    {
        SuspendController { hysteresis_ms }
    }

    /// How long to wait before the handshake's write-back: with no wakeup event
    /// there is nothing to wait on; with one at time `T` and the clock at
    /// `T + delta`, the wait is the remainder of the hysteresis window,
    /// zero once `delta` has reached it. An event in the clock's future
    /// violates the monotonic-time invariant and fails.
    pub fn hysteresis_wait(&self, last_event: Option<MonotonicTimeMS>, now: MonotonicTimeMS) -> (r:
        Result<u64, HysteresisError>)
        ensures
            match r {
                Ok(w) => match last_event {
                    None => w == 0,
                    Some(t) => t.0 <= now.0 && w == if now.0 - t.0 < self.hysteresis_ms {
                        self.hysteresis_ms - (now.0 - t.0)
                    } else {
                        0
                    },
                },
                Err(e) => last_event matches Some(t) && t.0 > now.0,
            },
    {
        match last_event {
            None => Ok(0),
            Some(t) => {
                if t.0 > now.0 {
                    Err(HysteresisError::EventInFuture)
                } else {
                    let delta = now.sub(t);
                    if delta < self.hysteresis_ms {
                        Ok(self.hysteresis_ms - delta)
                    } else {
                        Ok(0)
                    }
                }
            },
        }
    }

    /// The step after the handshake's write-back: only a clean one may suspend;
    /// a changed counter or a busy kernel abandons the cycle and restarts
    /// at once; anything else is fatal.
    pub fn after_commit(&self, outcome: CommitOutcome) -> (n: CycleNext)
        ensures
            outcome == CommitOutcome::Clean ==> n == CycleNext::AttemptSuspend,
            outcome == CommitOutcome::CounterChanged ==> n == (CycleNext::Restart {
                backoff_ms: 0,
            }),
            outcome == CommitOutcome::AutosleepBusy ==> n == (CycleNext::Restart {
                backoff_ms: 0,
            }),
            outcome == CommitOutcome::Fatal ==> n == CycleNext::Abort,
    {
        match outcome {
            CommitOutcome::Clean => CycleNext::AttemptSuspend,
            CommitOutcome::CounterChanged => CycleNext::Restart { backoff_ms: 0 },
            CommitOutcome::AutosleepBusy => CycleNext::Restart { backoff_ms: 0 },
            CommitOutcome::Fatal => CycleNext::Abort,
        }
    }

    /// The step after a suspend attempt: after a resume, wait the full
    /// hysteresis window before the next cycle; after a benign refusal,
    /// restart with the fixed backoff; anything else is fatal.
    pub fn after_sleep(&self, outcome: SleepOutcome) -> (n: CycleNext)
        ensures
            outcome == SleepOutcome::Suspended ==> n == (CycleNext::ResumeWait {
                wait_ms: self.hysteresis_ms,
            }),
            outcome == SleepOutcome::Busy ==> n == (CycleNext::Restart {
                backoff_ms: SUSPEND_RETRY_BACKOFF_MS,
            }),
            outcome == SleepOutcome::Fatal ==> n == CycleNext::Abort,
    {
        match outcome {
            SleepOutcome::Suspended => CycleNext::ResumeWait { wait_ms: self.hysteresis_ms },
            SleepOutcome::Busy => CycleNext::Restart { backoff_ms: SUSPEND_RETRY_BACKOFF_MS },
            SleepOutcome::Fatal => CycleNext::Abort,
        }
    }
}

} // verus!
