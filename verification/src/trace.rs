//! Runs of the loop: what holds of every sequence of steps, whatever the application,
//! the producers and the clock do between them.

use crate::control_flow::{Action, ControlFlow};
use crate::driver::{DriverState, Outcome, Phase, Step};
use crate::event::{Event, StartCause};
use crate::time::{Duration, Instant};
use vstd::prelude::*;

verus! {

/// What the world presents to one step of the loop.
pub struct StepInput<T> {
    /// The control flow that the application has set.
    pub control_flow: ControlFlow,
    /// Whether the application has asked the loop to end.
    pub exiting: bool,
    /// The event queue as the step finds it.
    pub queue: Seq<Event<()>>,
    /// The time of the step.
    pub now: Instant,
    /// A user event taken from the channel for the step.
    pub received: Option<T>,
}

/// One step from `state` under `input`.
pub open spec fn step_outcome<T>(state: DriverState<T>, input: StepInput<T>) -> Outcome<T> {
    state.advance(input.control_flow, input.exiting, input.queue, input.now, input.received)
}

/// The driver before step `k` of a run that starts in `start` and is fed `inputs`.
pub open spec fn state_before<T>(
    start: DriverState<T>,
    inputs: Seq<StepInput<T>>,
    k: int,
) -> DriverState<T>
    decreases k,
{
    if k <= 0 {
        start
    } else {
        step_outcome(state_before(start, inputs, k - 1), inputs[k - 1]).driver
    }
}

/// What step `k` of the run hands out.
pub open spec fn step_at<T>(start: DriverState<T>, inputs: Seq<StepInput<T>>, k: int) -> Step<T> {
    step_outcome(state_before(start, inputs, k), inputs[k]).step
}

/// Whether `queue` does not start with a user event. User events travel through the
/// channel; the loop takes no step on one that heads the queue.
pub open spec fn starts_with_no_user_event(queue: Seq<Event<()>>) -> bool {
    queue.len() > 0 ==> !(queue[0] is UserEvent)
}

/// Whether `queue` starts with a window or device event, if it holds any event.
pub open spec fn starts_with_producer_event(queue: Seq<Event<()>>) -> bool {
    queue.len() > 0 ==> queue[0].is_producer_event()
}

/// Whether `queue` starts neither with a user event nor with `event`.
pub open spec fn does_not_start_with(queue: Seq<Event<()>>, event: Event<()>) -> bool {
    &&& starts_with_no_user_event(queue)
    &&& queue.len() > 0 ==> queue[0] != event
}

/// Whether `queue` starts neither with a user event nor with a `NewEvents`.
pub open spec fn starts_no_iteration(queue: Seq<Event<()>>) -> bool {
    &&& starts_with_no_user_event(queue)
    &&& queue.len() > 0 ==> !(queue[0] is NewEvents)
}

/// Whether no queue that the run meets starts with a user event.
pub open spec fn no_queue_starts_with_user_event<T>(inputs: Seq<StepInput<T>>) -> bool {
    forall|k: int|
        0 <= k < inputs.len() ==> starts_with_no_user_event((#[trigger] inputs[k]).queue)
}

/// Whether no queue that the run meets starts with a user event or with `event`: no
/// producer has enqueued `event`, which the loop would deliver like any other.
pub open spec fn no_queue_starts_with<T>(inputs: Seq<StepInput<T>>, event: Event<()>) -> bool {
    forall|k: int|
        0 <= k < inputs.len() ==> does_not_start_with((#[trigger] inputs[k]).queue, event)
}

/// Whether no queue that the run meets starts with a user event or with a `NewEvents`.
pub open spec fn no_queue_starts_an_iteration<T>(inputs: Seq<StepInput<T>>) -> bool {
    forall|k: int| 0 <= k < inputs.len() ==> starts_no_iteration((#[trigger] inputs[k]).queue)
}

/// Whether the clock of the run never goes back.
pub open spec fn clock_is_monotonic<T>(inputs: Seq<StepInput<T>>) -> bool {
    forall|a: int, b: int|
        #![trigger inputs[a], inputs[b]]
        0 <= a <= b < inputs.len() ==> inputs[a].now.nanos <= inputs[b].now.nanos
}

/// A step that hands out `LoopExiting` ends the loop, and only such a step does; a step
/// of a loop that has ended hands out nothing.
pub proof fn lemma_exit_step<T>(state: DriverState<T>, input: StepInput<T>)
    requires
        does_not_start_with(input.queue, Event::LoopExiting),
    ensures
        ({
            let outcome = step_outcome(state, input);
            let exits = outcome.step == Step::Deliver(Event::<T>::LoopExiting);
            &&& state.phase == Phase::Terminated ==> outcome.step == Step::<T>::Terminated
            &&& state.phase == Phase::Terminated ==> outcome.driver.phase == Phase::Terminated
            &&& state.phase != Phase::Terminated ==> (exits <==> outcome.driver.phase
                == Phase::Terminated)
            &&& exits ==> state.phase == Phase::AboutToWait && input.exiting
        }),
{
}

/// Once the loop has ended it stays ended.
pub proof fn lemma_terminated_is_final<T>(
    start: DriverState<T>,
    inputs: Seq<StepInput<T>>,
    from: int,
    to: int,
)
    requires
        0 <= from <= to <= inputs.len(),
        state_before(start, inputs, from).phase == Phase::Terminated,
    ensures
        state_before(start, inputs, to).phase == Phase::Terminated,
    decreases to - from,
{
    if from < to {
        lemma_terminated_is_final(start, inputs, from, to - 1);
    }
}

/// `LoopExiting` is strictly last where no producer enqueues a `LoopExiting` of its own:
/// every step after the one that delivers it finds the loop ended and delivers nothing,
/// so no such run delivers `LoopExiting` twice.
pub proof fn lemma_nothing_follows_loop_exiting<T>(
    start: DriverState<T>,
    inputs: Seq<StepInput<T>>,
    exit_step: int,
    later: int,
)
    requires
        no_queue_starts_with(inputs, Event::LoopExiting),
        0 <= exit_step < later < inputs.len(),
        step_at(start, inputs, exit_step) == Step::Deliver(Event::<T>::LoopExiting),
    ensures
        step_at(start, inputs, later) == Step::<T>::Terminated,
{
    lemma_exit_step(state_before(start, inputs, exit_step), inputs[exit_step]);
    assert(state_before(start, inputs, exit_step + 1).phase == Phase::Terminated);
    lemma_terminated_is_final(start, inputs, exit_step + 1, later);
    lemma_exit_step(state_before(start, inputs, later), inputs[later]);
}

/// `LoopExiting` is delivered at most once where no producer enqueues a `LoopExiting` of
/// its own: two steps of such a run that deliver it are one step.
pub proof fn lemma_loop_exiting_at_most_once<T>(
    start: DriverState<T>,
    inputs: Seq<StepInput<T>>,
    one: int,
    other: int,
)
    requires
        no_queue_starts_with(inputs, Event::LoopExiting),
        0 <= one < inputs.len(),
        0 <= other < inputs.len(),
        step_at(start, inputs, one) == Step::Deliver(Event::<T>::LoopExiting),
        step_at(start, inputs, other) == Step::Deliver(Event::<T>::LoopExiting),
    ensures
        one == other,
{
    if one < other {
        lemma_nothing_follows_loop_exiting(start, inputs, one, other);
    } else if other < one {
        lemma_nothing_follows_loop_exiting(start, inputs, other, one);
    }
}

/// Whether one of the first `n` steps of the run delivers `LoopExiting`.
pub open spec fn delivers_loop_exiting<T>(
    start: DriverState<T>,
    inputs: Seq<StepInput<T>>,
    n: int,
) -> bool {
    exists|k: int|
        0 <= k < n && #[trigger] step_at(start, inputs, k) == Step::Deliver(
            Event::<T>::LoopExiting,
        )
}

/// A run that starts before the end of the loop, and in which no producer enqueues a
/// `LoopExiting` of its own, reaches the end exactly when one of its steps delivers
/// `LoopExiting`.
pub proof fn lemma_loop_ends_with_loop_exiting<T>(
    start: DriverState<T>,
    inputs: Seq<StepInput<T>>,
)
    requires
        no_queue_starts_with(inputs, Event::LoopExiting),
        start.phase != Phase::Terminated,
    ensures
        state_before(start, inputs, inputs.len() as int).phase == Phase::Terminated
            <==> delivers_loop_exiting(start, inputs, inputs.len() as int),
{
    lemma_ends_with_loop_exiting_upto(start, inputs, inputs.len() as int);
}

proof fn lemma_ends_with_loop_exiting_upto<T>(
    start: DriverState<T>,
    inputs: Seq<StepInput<T>>,
    n: int,
)
    requires
        no_queue_starts_with(inputs, Event::LoopExiting),
        start.phase != Phase::Terminated,
        0 <= n <= inputs.len(),
    ensures
        state_before(start, inputs, n).phase == Phase::Terminated <==> delivers_loop_exiting(
            start,
            inputs,
            n,
        ),
    decreases n,
{
    if n > 0 {
        lemma_ends_with_loop_exiting_upto(start, inputs, n - 1);
        lemma_exit_step(state_before(start, inputs, n - 1), inputs[n - 1]);
        if state_before(start, inputs, n).phase == Phase::Terminated {
            if state_before(start, inputs, n - 1).phase == Phase::Terminated {
                let k = choose|k: int|
                    0 <= k < n - 1 && #[trigger] step_at(start, inputs, k) == Step::Deliver(
                        Event::<T>::LoopExiting,
                    );
                assert(0 <= k < n);
            } else {
                assert(step_at(start, inputs, n - 1) == Step::Deliver(Event::<T>::LoopExiting));
            }
        }
        if delivers_loop_exiting(start, inputs, n) {
            let k = choose|k: int|
                0 <= k < n && #[trigger] step_at(start, inputs, k) == Step::Deliver(
                    Event::<T>::LoopExiting,
                );
            if k < n - 1 {
                assert(state_before(start, inputs, n - 1).phase == Phase::Terminated);
            }
        }
    }
}

/// A step delivers `Resumed` exactly when it is the first step of a loop.
pub proof fn lemma_resumed_step<T>(state: DriverState<T>, input: StepInput<T>)
    requires
        does_not_start_with(input.queue, Event::Resumed),
    ensures
        step_outcome(state, input).step == Step::Deliver(Event::<T>::Resumed) <==> (state.phase
            == Phase::Created),
        step_outcome(state, input).driver.phase != Phase::Created,
{
}

proof fn lemma_created_only_at_start<T>(
    poll_quantum: Duration,
    inputs: Seq<StepInput<T>>,
    k: int,
)
    requires
        no_queue_starts_with(inputs, Event::Resumed),
        0 <= k <= inputs.len(),
    ensures
        state_before(DriverState::<T>::initial(poll_quantum), inputs, k).phase == Phase::Created
            <==> k == 0,
    decreases k,
{
    if k > 0 {
        lemma_created_only_at_start(poll_quantum, inputs, k - 1);
        lemma_resumed_step(
            state_before(DriverState::<T>::initial(poll_quantum), inputs, k - 1),
            inputs[k - 1],
        );
    }
}

/// Where no producer enqueues a `Resumed` of its own, `Resumed` is delivered exactly
/// once: by the first step of a run and by no other. Every `NewEvents` therefore comes
/// strictly after it.
pub proof fn lemma_resumed_comes_first<T>(
    poll_quantum: Duration,
    inputs: Seq<StepInput<T>>,
    k: int,
)
    requires
        no_queue_starts_with(inputs, Event::Resumed),
        0 <= k < inputs.len(),
    ensures
        ({
            let step = step_at(DriverState::<T>::initial(poll_quantum), inputs, k);
            &&& step == Step::Deliver(Event::<T>::Resumed) <==> k == 0
            &&& (step matches Step::Deliver(Event::NewEvents(_))) ==> k > 0
        }),
{
    lemma_created_only_at_start(poll_quantum, inputs, k);
    lemma_resumed_step(
        state_before(DriverState::<T>::initial(poll_quantum), inputs, k),
        inputs[k],
    );
}

/// The order of one iteration, seen from a step that finds a window or device event at
/// the head of the queue, or none. It begins with `NewEvents`, delivered after `Resumed` or
/// on waking and by no other step. Window and device events follow while the queue is
/// being drained; user events follow those, and once the first user event or
/// `AboutToWait` has been delivered no window or device event is delivered before the
/// next `NewEvents`. `AboutToWait` closes the iteration.
pub proof fn lemma_iteration_order<T>(state: DriverState<T>, input: StepInput<T>)
    requires
        starts_with_producer_event(input.queue),
    ensures
        ({
            let step = step_outcome(state, input).step;
            let next = step_outcome(state, input).driver.phase;
            let draining = state.phase == Phase::DrainingEvents || state.phase
                == Phase::DrainingUserEvents;
            let waking = state.phase == Phase::Resumed || state.phase == Phase::Parked;
            &&& (step matches Step::Deliver(Event::NewEvents(_))) <==> waking && next
                == Phase::DrainingEvents
            &&& (step matches Step::Deliver(Event::WindowEvent { .. })) ==> state.phase
                == Phase::DrainingEvents && next == Phase::DrainingEvents
            &&& (step matches Step::Deliver(Event::DeviceEvent { .. })) ==> state.phase
                == Phase::DrainingEvents && next == Phase::DrainingEvents
            &&& (step matches Step::Deliver(Event::UserEvent(_))) ==> draining && next
                == Phase::DrainingUserEvents
            &&& step == Step::Deliver(Event::<T>::AboutToWait) <==> draining && next
                == Phase::AboutToWait
        }),
{
    if state.phase == Phase::DrainingEvents && input.queue.len() > 0 {
        assert(input.queue[0].is_producer_event());
    }
}

/// The event that a step takes from the queue, as a sequence of one, or nothing. A step
/// takes the head of a queue that is not empty while it drains, and delivers it.
pub open spec fn taken_from_queue<T>(state: DriverState<T>, input: StepInput<T>) -> Seq<
    Event<()>,
> {
    if state.phase == Phase::DrainingEvents && input.queue.len() > 0 {
        seq![input.queue[0]]
    } else {
        Seq::empty()
    }
}

/// The events that the steps before step `k` took from the queue, in their order.
pub open spec fn all_taken<T>(start: DriverState<T>, inputs: Seq<StepInput<T>>, k: int) -> Seq<
    Event<()>,
>
    decreases k,
{
    if k <= 0 {
        Seq::empty()
    } else {
        all_taken(start, inputs, k - 1) + taken_from_queue(
            state_before(start, inputs, k - 1),
            inputs[k - 1],
        )
    }
}

/// The events that producers enqueued before step `k`, in their order, where
/// `pushed[j]` holds those enqueued between step `j` and the next.
pub open spec fn all_pushed(pushed: Seq<Seq<Event<()>>>, k: int) -> Seq<Event<()>>
    decreases k,
{
    if k <= 0 {
        Seq::empty()
    } else {
        all_pushed(pushed, k - 1) + pushed[k - 1]
    }
}

/// Whether the queue changes between two steps by what producers append, `pushed[j]`
/// after step `j`, and by nothing else.
pub open spec fn producers_only_append<T>(
    start: DriverState<T>,
    inputs: Seq<StepInput<T>>,
    pushed: Seq<Seq<Event<()>>>,
) -> bool {
    &&& pushed.len() == inputs.len()
    &&& forall|j: int|
        0 <= j < inputs.len() - 1 ==> inputs[j + 1].queue == step_outcome(
            state_before(start, inputs, j),
            inputs[j],
        ).queue + #[trigger] pushed[j]
}

/// A step that takes an event from the queue delivers that event and no other step
/// touches the queue.
pub proof fn lemma_step_takes_what_it_delivers<T>(state: DriverState<T>, input: StepInput<T>)
    ensures
        taken_from_queue(state, input) + step_outcome(state, input).queue == input.queue,
        taken_from_queue(state, input).len() > 0 ==> step_outcome(state, input).step
            == Step::Deliver(taken_from_queue(state, input)[0].retagged::<T>()),
{
    assert(taken_from_queue(state, input) + step_outcome(state, input).queue =~= input.queue);
}

/// The loop delivers window and device events in the order in which producers enqueued
/// them: the events taken up to a step, followed by those still queued, are the events
/// queued at the start followed by all that producers have appended since.
pub proof fn lemma_events_are_delivered_in_enqueue_order<T>(
    start: DriverState<T>,
    inputs: Seq<StepInput<T>>,
    pushed: Seq<Seq<Event<()>>>,
    k: int,
)
    requires
        producers_only_append(start, inputs, pushed),
        0 <= k < inputs.len(),
    ensures
        all_taken(start, inputs, k) + inputs[k].queue == inputs[0].queue + all_pushed(pushed, k),
    decreases k,
{
    if k == 0 {
        assert(all_taken(start, inputs, k) + inputs[k].queue =~= inputs[0].queue + all_pushed(
            pushed,
            k,
        ));
    } else {
        lemma_events_are_delivered_in_enqueue_order(start, inputs, pushed, k - 1);
        let before = state_before(start, inputs, k - 1);
        lemma_step_takes_what_it_delivers(before, inputs[k - 1]);
        let taken = taken_from_queue(before, inputs[k - 1]);
        let left = step_outcome(before, inputs[k - 1]).queue;
        assert(inputs[k].queue == left + pushed[k - 1]);
        assert(all_taken(start, inputs, k) + inputs[k].queue =~= (all_taken(start, inputs, k - 1)
            + (taken + left)) + pushed[k - 1]);
        assert(inputs[0].queue + all_pushed(pushed, k) =~= (inputs[0].queue + all_pushed(
            pushed,
            k - 1,
        )) + pushed[k - 1]);
    }
}

/// The user event that a step delivers, as a sequence of one, or nothing.
pub open spec fn user_event_of<T>(step: Step<T>) -> Seq<T> {
    match step {
        Step::Deliver(Event::UserEvent(payload)) => seq![payload],
        _ => Seq::empty(),
    }
}

/// The user event that the channel yields for a step, as a sequence of one, or nothing.
pub open spec fn received_by<T>(input: StepInput<T>) -> Seq<T> {
    match input.received {
        Some(payload) => seq![payload],
        None => Seq::empty(),
    }
}

/// The user events that the steps before step `k` delivered, in their order.
pub open spec fn all_user_events<T>(
    start: DriverState<T>,
    inputs: Seq<StepInput<T>>,
    k: int,
) -> Seq<T>
    decreases k,
{
    if k <= 0 {
        Seq::empty()
    } else {
        all_user_events(start, inputs, k - 1) + user_event_of(step_at(start, inputs, k - 1))
    }
}

/// The user events that the channel yielded to the steps before step `k`, in their
/// order.
pub open spec fn all_received<T>(inputs: Seq<StepInput<T>>, k: int) -> Seq<T>
    decreases k,
{
    if k <= 0 {
        Seq::empty()
    } else {
        all_received(inputs, k - 1) + received_by(inputs[k - 1])
    }
}

/// The loop delivers user events in the order in which the channel yields them, and
/// loses none: the user events delivered up to a step, followed by the backlog, are the
/// backlog of the start followed by all that the channel has yielded since.
pub proof fn lemma_user_events_are_delivered_in_arrival_order<T>(
    start: DriverState<T>,
    inputs: Seq<StepInput<T>>,
    k: int,
)
    requires
        no_queue_starts_with_user_event(inputs),
        0 <= k <= inputs.len(),
    ensures
        all_user_events(start, inputs, k) + state_before(start, inputs, k).backlog
            == start.backlog + all_received(inputs, k),
    decreases k,
{
    if k == 0 {
        assert(all_user_events(start, inputs, k) + state_before(start, inputs, k).backlog
            =~= start.backlog + all_received(inputs, k));
    } else {
        lemma_user_events_are_delivered_in_arrival_order(start, inputs, k - 1);
        let before = state_before(start, inputs, k - 1);
        let input = inputs[k - 1];
        let outcome = step_outcome(before, input);
        assert(starts_with_no_user_event(input.queue));
        assert(user_event_of(outcome.step) + outcome.driver.backlog =~= before.backlog
            + received_by(input));
        assert(all_user_events(start, inputs, k) + outcome.driver.backlog =~= all_user_events(
            start,
            inputs,
            k - 1,
        ) + (user_event_of(outcome.step) + outcome.driver.backlog));
        assert(all_user_events(start, inputs, k) + state_before(start, inputs, k).backlog =~= (
        all_user_events(start, inputs, k - 1) + before.backlog) + received_by(input));
        assert(start.backlog + all_received(inputs, k) =~= (start.backlog + all_received(
            inputs,
            k - 1,
        )) + received_by(input));
    }
}

/// Whether a producer has an event for the step: one in the queue, in the backlog, or
/// fresh from the channel.
pub open spec fn producer_activity<T>(state: DriverState<T>, input: StepInput<T>) -> bool {
    input.queue.len() > 0 || state.backlog.len() > 0 || input.received is Some
}

/// A consumer parked until a deadline, with no producer activity, stays parked before
/// the deadline and starts the next iteration at or after it, with the cause
/// `ResumeTimeReached` that names the deadline.
pub proof fn lemma_deadline_resumes<T>(
    state: DriverState<T>,
    input: StepInput<T>,
    deadline: Instant,
)
    requires
        state.phase == Phase::Parked,
        state.parked_mode == ControlFlow::WaitUntil(deadline),
        !producer_activity(state, input),
    ensures
        ({
            let outcome = step_outcome(state, input);
            let reached = StartCause::ResumeTimeReached {
                start: state.parked_at,
                requested_resume: deadline,
            };
            &&& input.now.nanos < deadline.nanos ==> outcome.step == Step::<T>::Park(
                Action::SleepUntil(deadline),
            )
            &&& input.now.nanos < deadline.nanos ==> outcome.driver == state
            &&& input.now.nanos >= deadline.nanos ==> outcome.step == Step::<T>::Deliver(
                Event::NewEvents(reached),
            )
        }),
{
    assert(step_outcome(state, input).driver.backlog =~= state.backlog);
}

/// A producer's event ends a timed wait early: the step that finds it before the
/// deadline starts the next iteration at once, with the cause `WaitCancelled` that names
/// the deadline.
pub proof fn lemma_producer_cancels_timed_wait<T>(
    state: DriverState<T>,
    input: StepInput<T>,
    deadline: Instant,
)
    requires
        state.phase == Phase::Parked,
        state.parked_mode == ControlFlow::WaitUntil(deadline),
        producer_activity(state, input),
        input.now.nanos < deadline.nanos,
    ensures
        ({
            let outcome = step_outcome(state, input);
            let cancelled = StartCause::WaitCancelled {
                start: state.parked_at,
                requested_resume: Some(deadline),
            };
            &&& outcome.step == Step::<T>::Deliver(Event::NewEvents(cancelled))
            &&& outcome.driver.phase == Phase::DrainingEvents
        }),
{
}

/// A consumer that waits without a deadline stays parked until a producer has an event,
/// and then starts the next iteration with the cause `WaitCancelled` that names no
/// deadline.
pub proof fn lemma_wait_ends_with_producer<T>(state: DriverState<T>, input: StepInput<T>)
    requires
        state.phase == Phase::Parked,
        state.parked_mode == ControlFlow::Wait,
    ensures
        ({
            let outcome = step_outcome(state, input);
            let cancelled = StartCause::WaitCancelled {
                start: state.parked_at,
                requested_resume: None,
            };
            &&& !producer_activity(state, input) ==> outcome.step == Step::<T>::Park(
                Action::SleepIndefinite,
            )
            &&& !producer_activity(state, input) ==> outcome.driver == state
            &&& producer_activity(state, input) ==> outcome.step == Step::<T>::Deliver(
                Event::NewEvents(cancelled),
            )
        }),
{
    if !producer_activity(state, input) {
        assert(step_outcome(state, input).driver.backlog =~= state.backlog);
    }
}

/// A polling consumer yields for the quantum: a step starts the next iteration, with the
/// cause `Poll`, exactly when the quantum has passed since the consumer parked, events or
/// not. Time that seems to run backwards counts as no time.
pub proof fn lemma_poll_yields_for_quantum<T>(state: DriverState<T>, input: StepInput<T>)
    requires
        state.phase == Phase::Parked,
        state.parked_mode == ControlFlow::Poll,
    ensures
        ({
            let step = step_outcome(state, input).step;
            let yielded = input.now.spec_saturating_duration_since(state.parked_at);
            &&& yielded.nanos >= state.poll_quantum.nanos ==> step == Step::<T>::Deliver(
                Event::NewEvents(StartCause::Poll),
            )
            &&& yielded.nanos < state.poll_quantum.nanos ==> step == Step::<T>::Park(
                Action::Immediate,
            )
        }),
{
}

proof fn lemma_new_events_step<T>(state: DriverState<T>, input: StepInput<T>)
    requires
        starts_no_iteration(input.queue),
        step_outcome(state, input).step matches Step::Deliver(Event::NewEvents(_)),
    ensures
        ({
            let outcome = step_outcome(state, input);
            let yielded = input.now.spec_saturating_duration_since(state.parked_at);
            &&& state.phase == Phase::Resumed || state.phase == Phase::Parked
            &&& outcome.driver.phase == Phase::DrainingEvents
            &&& outcome.step == Step::<T>::Deliver(Event::NewEvents(StartCause::Poll)) ==> {
                &&& state.phase == Phase::Parked
                &&& state.parked_mode == ControlFlow::Poll
                &&& yielded.nanos >= state.poll_quantum.nanos
            }
        }),
{
}

proof fn lemma_parked_after_iteration_start<T>(
    start: DriverState<T>,
    inputs: Seq<StepInput<T>>,
    begun: int,
    k: int,
)
    requires
        no_queue_starts_an_iteration(inputs),
        clock_is_monotonic(inputs),
        0 <= begun < k <= inputs.len(),
        step_at(start, inputs, begun) matches Step::Deliver(Event::NewEvents(_)),
    ensures
        ({
            let state = state_before(start, inputs, k);
            &&& state.poll_quantum == start.poll_quantum
            &&& state.phase == Phase::Parked ==> state.parked_at.nanos >= inputs[begun].now.nanos
        }),
    decreases k,
{
    lemma_quantum_is_fixed(start, inputs, k);
    if k == begun + 1 {
        lemma_new_events_step(state_before(start, inputs, begun), inputs[begun]);
    } else {
        lemma_parked_after_iteration_start(start, inputs, begun, k - 1);
        let before = state_before(start, inputs, k - 1);
        assert(starts_no_iteration(inputs[k - 1].queue));
        assert(inputs[begun].now.nanos <= inputs[k - 1].now.nanos);
    }
}

/// No step changes the poll quantum.
pub proof fn lemma_quantum_is_fixed<T>(start: DriverState<T>, inputs: Seq<StepInput<T>>, k: int)
    requires
        0 <= k <= inputs.len(),
    ensures
        state_before(start, inputs, k).poll_quantum == start.poll_quantum,
    decreases k,
{
    if k > 0 {
        lemma_quantum_is_fixed(start, inputs, k - 1);
    }
}

/// On a clock that never goes back, and where no producer enqueues a `NewEvents` of its
/// own, an iteration that starts with the cause `Poll` starts at least the poll quantum
/// after the start of any earlier iteration.
pub proof fn lemma_poll_iterations_are_a_quantum_apart<T>(
    start: DriverState<T>,
    inputs: Seq<StepInput<T>>,
    earlier: int,
    later: int,
)
    requires
        no_queue_starts_an_iteration(inputs),
        clock_is_monotonic(inputs),
        0 <= earlier < later < inputs.len(),
        step_at(start, inputs, earlier) matches Step::Deliver(Event::NewEvents(_)),
        step_at(start, inputs, later) == Step::<T>::Deliver(Event::NewEvents(StartCause::Poll)),
    ensures
        inputs[later].now.nanos - inputs[earlier].now.nanos >= start.poll_quantum.nanos,
{
    lemma_parked_after_iteration_start(start, inputs, earlier, later);
    lemma_new_events_step(state_before(start, inputs, later), inputs[later]);
}

/// The timeout of a parked consumer is long enough: a consumer that blocks for it, on a
/// clock that does not go back, starts its next iteration with the step that follows.
pub proof fn lemma_park_timeout_suffices<T>(
    state: DriverState<T>,
    now: Instant,
    timeout: Duration,
    input: StepInput<T>,
)
    requires
        state.phase == Phase::Parked,
        state.parked_at.nanos <= now.nanos,
        state.park_timeout(now) == Some(timeout),
        input.now.nanos >= now.nanos + timeout.nanos,
    ensures
        step_outcome(state, input).step matches Step::Deliver(Event::NewEvents(_)),
{
}

} // verus!
