//! How the loop waits between iterations, and why it wakes.

use crate::event::StartCause;
use crate::time::{Duration, Instant};
use vstd::prelude::*;

verus! {

/// What the loop does once an iteration has been dispatched.
#[derive(Copy, Clone, Debug, PartialEq, Eq, Structural)]
pub enum ControlFlow {
    /// Start the next iteration after a short cooperative yield, events or not.
    Poll,
    /// Sleep until a producer has an event.
    Wait,
    /// Sleep until a producer has an event or the instant is reached.
    WaitUntil(Instant),
}

impl Default for ControlFlow {
    /// A fresh loop waits.
    fn default() -> (cf: ControlFlow)
        ensures
            cf == ControlFlow::Wait,
    {
        ControlFlow::Wait
    }
}

/// How the consumer suspends itself before it asks for the next iteration.
#[derive(Copy, Clone, Debug, PartialEq, Eq, Structural)]
pub enum Action {
    /// Do not block: yield for the loop's poll quantum and come back.
    Immediate,
    /// Block until a producer enqueues an event.
    SleepIndefinite,
    /// Block until a producer enqueues an event or the instant is reached.
    SleepUntil(Instant),
}

/// The later of a deadline and the present: a deadline that has passed asks for a sleep
/// of no length.
pub open spec fn clamped_deadline(deadline: Instant, now: Instant) -> Instant {
    if deadline.nanos <= now.nanos {
        now
    } else {
        deadline
    }
}

/// The action that `control_flow` asks for at `now`.
pub open spec fn next_wake(control_flow: ControlFlow, now: Instant) -> Action {
    match control_flow {
        ControlFlow::Poll => Action::Immediate,
        ControlFlow::Wait => Action::SleepIndefinite,
        ControlFlow::WaitUntil(deadline) => Action::SleepUntil(clamped_deadline(deadline, now)),
    }
}

impl ControlFlow {
    /// The action that this control flow asks for at `now`.
    pub fn compute_next_wake(self, now: Instant) -> (action: Action)
        ensures
            action == next_wake(self, now),
    {
        match self {
            ControlFlow::Poll => Action::Immediate,
            ControlFlow::Wait => Action::SleepIndefinite,
            ControlFlow::WaitUntil(deadline) => {
                if deadline.nanos <= now.nanos {
                    Action::SleepUntil(now)
                } else {
                    Action::SleepUntil(deadline)
                }
            },
        }
    }
}

impl Action {
    /// The longest time the action lets the consumer block at `now`: `None` for a sleep
    /// without limit, the empty span for an action that does not block.
    pub open spec fn spec_timeout(self, now: Instant) -> Option<Duration> {
        match self {
            Action::Immediate => Some(Duration { nanos: 0 }),
            Action::SleepIndefinite => None,
            Action::SleepUntil(until) => Some(until.spec_saturating_duration_since(now)),
        }
    }

    #[verifier::when_used_as_spec(spec_timeout)]
    pub fn timeout(self, now: Instant) -> (limit: Option<Duration>)
        ensures
            limit == self.spec_timeout(now),
    {
        match self {
            Action::Immediate => Some(Duration { nanos: 0 }),
            Action::SleepIndefinite => None,
            Action::SleepUntil(until) => Some(until.saturating_duration_since(now)),
        }
    }
}

/// Whether a parked consumer starts an iteration at `now`, and with which cause.
///
/// `mode` is the control flow under which the consumer parked at `start`; `pending` says
/// whether a producer has an event waiting. A polling consumer resumes once it has
/// yielded for `quantum`. A waiting consumer resumes when an event is pending. A consumer
/// with a deadline resumes at the deadline, and earlier when an event is pending. A
/// deadline that has been reached wins: the cause is then `ResumeTimeReached` whether or
/// not an event is pending as well, and `WaitCancelled` is the cause of a wake before the
/// deadline only.
pub open spec fn wake_cause(
    mode: ControlFlow,
    start: Instant,
    quantum: Duration,
    now: Instant,
    pending: bool,
) -> Option<StartCause> {
    match mode {
        ControlFlow::Poll => {
            if now.spec_saturating_duration_since(start).nanos >= quantum.nanos {
                Some(StartCause::Poll)
            } else {
                None
            }
        },
        ControlFlow::Wait => {
            if pending {
                Some(StartCause::WaitCancelled { start, requested_resume: None })
            } else {
                None
            }
        },
        ControlFlow::WaitUntil(deadline) => {
            if now.nanos >= deadline.nanos {
                Some(StartCause::ResumeTimeReached { start, requested_resume: deadline })
            } else if pending {
                Some(StartCause::WaitCancelled { start, requested_resume: Some(deadline) })
            } else {
                None
            }
        },
    }
}

/// Decides whether a consumer that parked at `start` under `mode` starts an iteration
/// at `now`.
pub fn compute_wake_cause(
    mode: ControlFlow,
    start: Instant,
    quantum: Duration,
    now: Instant,
    pending: bool,
) -> (cause: Option<StartCause>)
    ensures
        cause == wake_cause(mode, start, quantum, now, pending),
{
    match mode {
        ControlFlow::Poll => {
            if now.saturating_duration_since(start).nanos >= quantum.nanos {
                Some(StartCause::Poll)
            } else {
                None
            }
        },
        ControlFlow::Wait => {
            if pending {
                Some(StartCause::WaitCancelled { start, requested_resume: None })
            } else {
                None
            }
        },
        ControlFlow::WaitUntil(deadline) => {
            if now.nanos >= deadline.nanos {
                Some(StartCause::ResumeTimeReached { start, requested_resume: deadline })
            } else if pending {
                Some(StartCause::WaitCancelled { start, requested_resume: Some(deadline) })
            } else {
                None
            }
        },
    }
}

} // verus!
