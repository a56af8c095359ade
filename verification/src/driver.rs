//! The main loop as a state machine.
//!
//! The consumer thread asks the driver for one step at a time. A step is an event to
//! dispatch to the application, a request to suspend, or the news that the loop has
//! ended. Between two steps the application callback may run, producers may enqueue, and
//! time may pass; the driver reads all of that from the arguments of the next step.
//!
//! One iteration reads `NewEvents`, then the events of the queue, then the user events of
//! the channel, then `AboutToWait`. Where producers enqueue window and device events
//! only, as they are meant to, that is
//! `NewEvents, (WindowEvent | DeviceEvent)*, UserEvent*, AboutToWait`;
//! `Resumed` precedes the first iteration and `LoopExiting` follows the last.

use crate::control_flow::{compute_wake_cause, next_wake, wake_cause, Action, ControlFlow};
use crate::event::{Event, StartCause};
use crate::event_hub::EventHub;
use crate::time::{Duration, Instant};
use std::collections::VecDeque;
use vstd::prelude::*;

verus! {

/// Where the loop stands between two steps.
#[derive(Copy, Clone, Debug, PartialEq, Eq, Structural)]
pub enum Phase {
    /// Nothing has been delivered yet.
    Created,
    /// `Resumed` has been delivered; the first iteration has not begun.
    Resumed,
    /// An iteration has begun and the event queue is being drained.
    DrainingEvents,
    /// The event queue was seen empty; user events are being drained.
    DrainingUserEvents,
    /// `AboutToWait` has been delivered; exit and control flow are read next.
    AboutToWait,
    /// The consumer is suspended between two iterations.
    Parked,
    /// `LoopExiting` has been delivered.
    Terminated,
}

/// What the consumer does next.
#[derive(Debug, Clone, PartialEq)]
pub enum Step<T> {
    /// Dispatch the event to the application, then ask again.
    Deliver(Event<T>),
    /// Suspend as the action says, then ask again with the time read anew.
    Park(Action),
    /// The loop has ended. Nothing is delivered any more.
    Terminated,
}

/// The driver as contracts see it.
#[verifier::ext_equal]
pub struct DriverState<T> {
    pub phase: Phase,
    /// When the consumer last parked.
    pub parked_at: Instant,
    /// The control flow under which it parked.
    pub parked_mode: ControlFlow,
    /// User events received and not yet delivered, oldest first.
    pub backlog: Seq<T>,
    /// How long a polling loop yields between two iterations.
    pub poll_quantum: Duration,
}

/// What one step leaves behind: the driver, the event queue and the step handed out.
#[verifier::ext_equal]
pub struct Outcome<T> {
    pub driver: DriverState<T>,
    pub queue: Seq<Event<()>>,
    pub step: Step<T>,
}

impl<T> DriverState<T> {
    /// The state of a loop that has delivered nothing.
    pub open spec fn initial(poll_quantum: Duration) -> DriverState<T> {
        DriverState {
            phase: Phase::Created,
            parked_at: Instant { nanos: 0 },
            parked_mode: ControlFlow::Wait,
            backlog: Seq::empty(),
            poll_quantum,
        }
    }

    /// Whether the step at `now` may use a user event from the channel: none is in the
    /// backlog, and either user events are being drained or the consumer sleeps and only a
    /// producer can wake it.
    pub open spec fn wants_user_event(self, queue_is_empty: bool, now: Instant) -> bool {
        self.backlog.len() == 0 && match self.phase {
            Phase::DrainingEvents => queue_is_empty,
            Phase::DrainingUserEvents => true,
            Phase::Parked => queue_is_empty && match self.parked_mode {
                ControlFlow::Poll => false,
                ControlFlow::Wait => true,
                ControlFlow::WaitUntil(deadline) => now.nanos < deadline.nanos,
            },
            _ => false,
        }
    }

    /// Whether the next step would take a user event from the queue. User events travel
    /// through the channel; one in the queue has no counterpart under the payload type
    /// of the loop, and no step is defined on it.
    pub open spec fn meets_user_event(self, queue: Seq<Event<()>>) -> bool {
        self.phase == Phase::DrainingEvents && queue.len() > 0 && queue[0] is UserEvent
    }

    /// How long a parked consumer may block at `now` before it must ask for its next
    /// step: `None` where only a producer can wake it, else the rest of the poll quantum
    /// or the time to the deadline. A consumer that is not parked does not block.
    pub open spec fn park_timeout(self, now: Instant) -> Option<Duration> {
        match self.phase {
            Phase::Parked => match self.parked_mode {
                ControlFlow::Poll => {
                    let yielded = now.spec_saturating_duration_since(self.parked_at);
                    if yielded.nanos >= self.poll_quantum.nanos {
                        Some(Duration { nanos: 0 })
                    } else {
                        Some(Duration { nanos: (self.poll_quantum.nanos - yielded.nanos) as u64 })
                    }
                },
                ControlFlow::Wait => None,
                ControlFlow::WaitUntil(deadline) => Some(
                    deadline.spec_saturating_duration_since(now),
                ),
            },
            _ => Some(Duration { nanos: 0 }),
        }
    }

    /// The step that drains user events: the oldest of `backlog`, or `AboutToWait` when
    /// there is none.
    pub open spec fn drain_user_events(self, backlog: Seq<T>, queue: Seq<Event<()>>) -> Outcome<
        T,
    > {
        if backlog.len() > 0 {
            Outcome {
                driver: DriverState {
                    phase: Phase::DrainingUserEvents,
                    backlog: backlog.subrange(1, backlog.len() as int),
                    ..self
                },
                queue,
                step: Step::Deliver(Event::UserEvent(backlog[0])),
            }
        } else {
            Outcome {
                driver: DriverState { phase: Phase::AboutToWait, backlog, ..self },
                queue,
                step: Step::Deliver(Event::AboutToWait),
            }
        }
    }

    /// One step of the loop.
    ///
    /// `control_flow` and `exiting` are what the application has set, `queue` is the event
    /// queue, `now` the time, and `received` a user event taken from the channel for this
    /// step, which joins the backlog before anything else happens.
    pub open spec fn advance(
        self,
        control_flow: ControlFlow,
        exiting: bool,
        queue: Seq<Event<()>>,
        now: Instant,
        received: Option<T>,
    ) -> Outcome<T> {
        let backlog = match received {
            Some(payload) => self.backlog.push(payload),
            None => self.backlog,
        };
        match self.phase {
            Phase::Created => Outcome {
                driver: DriverState { phase: Phase::Resumed, backlog, ..self },
                queue,
                step: Step::Deliver(Event::Resumed),
            },
            Phase::Resumed => Outcome {
                driver: DriverState { phase: Phase::DrainingEvents, backlog, ..self },
                queue,
                step: Step::Deliver(Event::NewEvents(StartCause::Init)),
            },
            Phase::DrainingEvents => {
                if queue.len() > 0 {
                    Outcome {
                        driver: DriverState { backlog, ..self },
                        queue: queue.subrange(1, queue.len() as int),
                        step: Step::Deliver(queue[0].retagged::<T>()),
                    }
                } else {
                    self.drain_user_events(backlog, queue)
                }
            },
            Phase::DrainingUserEvents => self.drain_user_events(backlog, queue),
            Phase::AboutToWait => {
                if exiting {
                    Outcome {
                        driver: DriverState { phase: Phase::Terminated, backlog, ..self },
                        queue,
                        step: Step::Deliver(Event::LoopExiting),
                    }
                } else {
                    Outcome {
                        driver: DriverState {
                            phase: Phase::Parked,
                            parked_at: now,
                            parked_mode: control_flow,
                            backlog,
                            ..self
                        },
                        queue,
                        step: Step::Park(next_wake(control_flow, now)),
                    }
                }
            },
            Phase::Parked => {
                let pending = queue.len() > 0 || backlog.len() > 0;
                match wake_cause(self.parked_mode, self.parked_at, self.poll_quantum, now, pending) {
                    Some(cause) => Outcome {
                        driver: DriverState { phase: Phase::DrainingEvents, backlog, ..self },
                        queue,
                        step: Step::Deliver(Event::NewEvents(cause)),
                    },
                    None => Outcome {
                        driver: DriverState { backlog, ..self },
                        queue,
                        step: Step::Park(next_wake(self.parked_mode, now)),
                    },
                }
            },
            Phase::Terminated => Outcome {
                driver: DriverState { backlog, ..self },
                queue,
                step: Step::Terminated,
            },
        }
    }
}

/// The loop's own state: where it stands, how it last parked, and the user events it has
/// received but not yet delivered.
pub struct Driver<T> {
    phase: Phase,
    parked_at: Instant,
    parked_mode: ControlFlow,
    backlog: VecDeque<T>,
    poll_quantum: Duration,
}

impl<T> View for Driver<T> {
    type V = DriverState<T>;

    closed spec fn view(&self) -> DriverState<T> {
        DriverState {
            phase: self.phase,
            parked_at: self.parked_at,
            parked_mode: self.parked_mode,
            backlog: self.backlog@,
            poll_quantum: self.poll_quantum,
        }
    }
}

impl<T> Driver<T> {
    /// A driver that has delivered nothing and yields for `poll_quantum` when it polls.
    /// The quantum is more than nothing, so that a polling loop does not spin.
    pub fn new(poll_quantum: Duration) -> (driver: Driver<T>)
        requires
            poll_quantum.nanos > 0,
        ensures
            driver@ == DriverState::<T>::initial(poll_quantum),
    {
        Driver {
            phase: Phase::Created,
            parked_at: Instant { nanos: 0 },
            parked_mode: ControlFlow::Wait,
            backlog: VecDeque::new(),
            poll_quantum,
        }
    }

    pub fn phase(&self) -> (phase: Phase)
        ensures
            phase == self@.phase,
    {
        self.phase
    }

    /// When the consumer last parked.
    pub fn parked_at(&self) -> (at: Instant)
        ensures
            at == self@.parked_at,
    {
        self.parked_at
    }

    /// The control flow under which the consumer last parked.
    pub fn parked_mode(&self) -> (mode: ControlFlow)
        ensures
            mode == self@.parked_mode,
    {
        self.parked_mode
    }

    pub fn poll_quantum(&self) -> (quantum: Duration)
        ensures
            quantum == self@.poll_quantum,
    {
        self.poll_quantum
    }

    /// The number of user events received and not yet delivered.
    pub fn backlog_len(&self) -> (n: usize)
        ensures
            n == self@.backlog.len(),
    {
        self.backlog.len()
    }

    /// Whether the loop has ended.
    pub fn is_terminated(&self) -> (b: bool)
        ensures
            b == (self@.phase == Phase::Terminated),
    {
        match self.phase {
            Phase::Terminated => true,
            _ => false,
        }
    }

    /// Whether the next step would take a user event from the queue `hub`, on which no
    /// step is defined.
    pub fn meets_user_event(&self, hub: &EventHub) -> (b: bool)
        ensures
            b == self@.meets_user_event(hub@),
    {
        match self.phase {
            Phase::DrainingEvents => hub.front_is_user_event(),
            _ => false,
        }
    }

    /// How long the consumer may block at `now` before it must ask for its next step;
    /// `None` where only a producer can wake it.
    pub fn park_timeout(&self, now: Instant) -> (limit: Option<Duration>)
        ensures
            limit == self@.park_timeout(now),
    {
        match self.phase {
            Phase::Parked => match self.parked_mode {
                ControlFlow::Poll => {
                    let yielded = now.saturating_duration_since(self.parked_at);
                    if yielded.nanos >= self.poll_quantum.nanos {
                        Some(Duration { nanos: 0 })
                    } else {
                        Some(Duration { nanos: self.poll_quantum.nanos - yielded.nanos })
                    }
                },
                ControlFlow::Wait => None,
                ControlFlow::WaitUntil(deadline) => Some(deadline.saturating_duration_since(now)),
            },
            _ => Some(Duration { nanos: 0 }),
        }
    }

    /// Whether the next step at `now` may use a user event from the channel.
    pub fn wants_user_event(&self, queue_is_empty: bool, now: Instant) -> (b: bool)
        ensures
            b == self@.wants_user_event(queue_is_empty, now),
    {
        if self.backlog.len() != 0 {
            return false;
        }
        match self.phase {
            Phase::DrainingEvents => queue_is_empty,
            Phase::DrainingUserEvents => true,
            Phase::Parked => {
                queue_is_empty && match self.parked_mode {
                    ControlFlow::Poll => false,
                    ControlFlow::Wait => true,
                    ControlFlow::WaitUntil(deadline) => now.nanos < deadline.nanos,
                }
            },
            _ => false,
        }
    }

    fn drain_user_events(&mut self) -> (step: Step<T>)
        ensures
            final(self)@ == old(self)@.drain_user_events(old(self)@.backlog, Seq::empty()).driver,
            step == old(self)@.drain_user_events(old(self)@.backlog, Seq::empty()).step,
    {
        match self.backlog.pop_front() {
            Some(payload) => {
                self.phase = Phase::DrainingUserEvents;
                Step::Deliver(Event::UserEvent(payload))
            },
            None => {
                self.phase = Phase::AboutToWait;
                Step::Deliver(Event::AboutToWait)
            },
        }
    }

    /// Takes one step of the loop at `now`.
    ///
    /// `control_flow` and `exiting` are what the application has set so far, `hub` is the
    /// event queue, and `received` is a user event taken from the channel for this step.
    /// No step is defined where it would take a user event from the queue;
    /// `meets_user_event` tells beforehand.
    pub fn advance(
        &mut self,
        control_flow: ControlFlow,
        exiting: bool,
        hub: &mut EventHub,
        now: Instant,
        received: Option<T>,
    ) -> (step: Step<T>)
        requires
            !old(self)@.meets_user_event(old(hub)@),
        ensures
            final(self)@ == old(self)@.advance(control_flow, exiting, old(hub)@, now, received).driver,
            final(hub)@ == old(self)@.advance(control_flow, exiting, old(hub)@, now, received).queue,
            step == old(self)@.advance(control_flow, exiting, old(hub)@, now, received).step,
    {
        match received {
            Some(payload) => {
                self.backlog.push_back(payload);
            },
            None => {},
        }
        let ghost queue = hub@;
        match self.phase {
            Phase::Created => {
                self.phase = Phase::Resumed;
                Step::Deliver(Event::Resumed)
            },
            Phase::Resumed => {
                self.phase = Phase::DrainingEvents;
                Step::Deliver(Event::NewEvents(StartCause::Init))
            },
            Phase::DrainingEvents => {
                match hub.pop_event() {
                    Some(event) => Step::Deliver(event.map_nonuser_event::<T>().unwrap()),
                    None => {
                        assert(queue =~= Seq::<Event<()>>::empty());
                        self.drain_user_events()
                    },
                }
            },
            Phase::DrainingUserEvents => {
                self.drain_user_events()
            },
            Phase::AboutToWait => {
                if exiting {
                    self.phase = Phase::Terminated;
                    Step::Deliver(Event::LoopExiting)
                } else {
                    self.phase = Phase::Parked;
                    self.parked_at = now;
                    self.parked_mode = control_flow;
                    Step::Park(control_flow.compute_next_wake(now))
                }
            },
            Phase::Parked => {
                let pending = !hub.is_empty() || self.backlog.len() != 0;
                match compute_wake_cause(
                    self.parked_mode,
                    self.parked_at,
                    self.poll_quantum,
                    now,
                    pending,
                ) {
                    Some(cause) => {
                        self.phase = Phase::DrainingEvents;
                        Step::Deliver(Event::NewEvents(cause))
                    },
                    None => Step::Park(self.parked_mode.compute_next_wake(now)),
                }
            },
            Phase::Terminated => Step::Terminated,
        }
    }
}

} // verus!

