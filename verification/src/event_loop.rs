//! The event loop: the application's handle on control flow, the proxy that injects user
//! events from other threads, and the loop that turns both sources of events into one
//! ordered stream.

use crate::channel::{clone_sender, open_channel, send_payload, try_receive};
use crate::control_flow::{next_wake, Action};
use crate::cursor::{CustomCursor, CustomCursorFuture, CustomCursorSource, PlatformCustomCursor};
use crate::driver::{Driver, DriverState, Phase, Step};
use crate::error::EventLoopError;
use crate::event::{DeviceId, Event};
use crate::event_hub::EventHub;
use crate::geometry::F64Bits;
use crate::monitor::MonitorHandle;
use crate::time::{Duration, Instant};
use crate::window::Theme;
use crate::window_target::{web_display_handle, OwnedDisplayHandle};
use raw_window_handle::{HandleError, RawDisplayHandle};
use std::collections::VecDeque;
use std::sync::mpsc::{Receiver, Sender};
use vstd::prelude::*;

pub use crate::control_flow::ControlFlow;

verus! {

/// How long a polling loop yields between two iterations unless told otherwise, in
/// milliseconds.
pub const DEFAULT_POLL_QUANTUM_MILLIS: u64 = 10;

/// What this platform needs to know to make an event loop: nothing.
#[derive(Default, Debug, Copy, Clone, PartialEq, Eq, Hash)]
pub struct PlatformSpecificEventLoopAttributes {}

/// A user event that could not be sent because the loop has ended. It holds the event.
#[derive(Debug, Clone, Copy, PartialEq, Eq)]
pub struct EventLoopClosed<T>(pub T);

/// What a send through a proxy returns for each outcome of the channel: success as it
/// is, and the payload that came back wrapped as the error.
pub fn closed_loop_result<T>(outcome: Result<(), T>) -> (r: Result<(), EventLoopClosed<T>>)
    ensures
        outcome is Ok ==> r is Ok,
        outcome matches Err(payload) ==> r == Err::<(), EventLoopClosed<T>>(
            EventLoopClosed(payload),
        ),
{
    match outcome {
        Ok(()) => Ok(()),
        Err(payload) => Err(EventLoopClosed(payload)),
    }
}

/// A handle that sends user events to the loop from any thread.
#[verifier::reject_recursive_types(T)]
pub struct EventLoopProxy<T: 'static> {
    sender: Sender<T>,
}

impl<T: 'static> EventLoopProxy<T> {
    /// The sending end that the proxy holds, which stands for the channel that it feeds.
    pub closed spec fn spec_sender(&self) -> Sender<T> {
        self.sender
    }

    /// Sends `event` to the loop. The send does not block. Where it fails the loop has
    /// ended, and the error hands `event` back unchanged.
    pub fn send_event(&self, event: T) -> (r: Result<(), EventLoopClosed<T>>)
        ensures
            r matches Err(closed) ==> closed.0 == event,
    {
        closed_loop_result(send_payload(&self.sender, event))
    }
}

impl<T: 'static> Clone for EventLoopProxy<T> {
    /// One more handle on the same loop: the copy feeds the channel that `self` feeds.
    fn clone(&self) -> (copy: Self)
        ensures
            copy.spec_sender() == self.spec_sender(),
    {
        EventLoopProxy { sender: clone_sender(&self.sender) }
    }
}

/// Which device events the application wants to hear of.
#[derive(Debug, Copy, Clone, PartialEq, Eq, Hash, Structural)]
pub enum DeviceEvents {
    Always,
    WhenFocused,
    Never,
}

/// The application's handle on the running loop: it sets the control flow and asks for
/// the end of the loop.
pub struct ActiveEventLoop {
    control_flow: ControlFlow,
    exit: bool,
}

impl ActiveEventLoop {
    /// The control flow in force.
    pub closed spec fn spec_control_flow(&self) -> ControlFlow {
        self.control_flow
    }

    /// Whether the end of the loop has been asked for.
    pub closed spec fn spec_exiting(&self) -> bool {
        self.exit
    }

    /// A handle whose loop waits and has not been asked to end.
    pub fn new() -> (target: ActiveEventLoop)
        ensures
            target.spec_control_flow() == ControlFlow::Wait,
            !target.spec_exiting(),
    {
        ActiveEventLoop { control_flow: ControlFlow::Wait, exit: false }
    }

    /// Sets how the loop waits after the iteration under dispatch.
    pub fn set_control_flow(&mut self, control_flow: ControlFlow)
        ensures
            final(self).spec_control_flow() == control_flow,
            final(self).spec_exiting() == old(self).spec_exiting(),
    {
        self.control_flow = control_flow;
    }

    #[verifier::when_used_as_spec(spec_control_flow)]
    pub fn control_flow(&self) -> (control_flow: ControlFlow)
        ensures
            control_flow == self.spec_control_flow(),
    {
        self.control_flow
    }

    /// Asks the loop to end. The loop ends after the iteration under dispatch.
    pub fn exit(&mut self)
        ensures
            final(self).spec_exiting(),
            final(self).spec_control_flow() == old(self).spec_control_flow(),
    {
        self.exit = true;
    }

    #[verifier::when_used_as_spec(spec_exiting)]
    pub fn exiting(&self) -> (exiting: bool)
        ensures
            exiting == self.spec_exiting(),
    {
        self.exit
    }

    /// A custom cursor for `source`. The browser draws its own cursor, so the cursor
    /// holds nothing.
    pub fn create_custom_cursor(&self, _source: CustomCursorSource) -> (cursor: CustomCursor)
        ensures
            cursor == (CustomCursor { inner: PlatformCustomCursor }),
    {
        CustomCursor { inner: PlatformCustomCursor }
    }

    /// A custom cursor in the making for `source`.
    pub fn create_custom_cursor_async(&self, _source: CustomCursorSource) -> (future:
        CustomCursorFuture) {
        CustomCursorFuture {  }
    }

    /// The browser tells of no monitor.
    pub fn available_monitors(&self) -> (monitors: VecDeque<MonitorHandle>)
        ensures
            monitors@.len() == 0,
    {
        VecDeque::new()
    }

    /// The browser tells of no monitor.
    pub fn primary_monitor(&self) -> (monitor: Option<MonitorHandle>)
        ensures
            monitor is None,
    {
        None
    }

    /// Leaves the loop as it is: device events arrive as the browser sends them.
    pub fn listen_device_events(&self, _allowed: DeviceEvents) {
    }

    /// The theme of the system is not known.
    pub fn system_theme(&self) -> (theme: Option<Theme>)
        ensures
            theme is None,
    {
        None
    }

    /// A display handle that may outlive the loop.
    pub fn owned_display_handle(&self) -> (handle: OwnedDisplayHandle) {
        OwnedDisplayHandle
    }

    /// The raw display handle of the web, which holds nothing.
    pub fn raw_display_handle_rwh_06(&self) -> (r: Result<RawDisplayHandle, HandleError>)
        ensures
            r is Ok,
    {
        Ok(web_display_handle())
    }

    /// Where the pointer of `_device_id` is: the browser does not tell.
    pub fn query_pointer(&self, _device_id: DeviceId) -> (position: Option<(F64Bits, F64Bits)>)
        ensures
            position is None,
    {
        None
    }

    /// How the consumer suspends itself at `now` under the control flow in force.
    pub fn compute_next_wake(&self, now: Instant) -> (action: Action)
        ensures
            action == next_wake(self.spec_control_flow(), now),
    {
        self.control_flow.compute_next_wake(now)
    }
}

/// Whether `after`, `queue_after` and `step` are what one step leaves of `before` and
/// `queue` at `now`, under the application's settings in `target`, when the channel
/// yields `received`.
pub open spec fn is_step_with<T>(
    before: DriverState<T>,
    target: ActiveEventLoop,
    queue: Seq<Event<()>>,
    now: Instant,
    received: Option<T>,
    after: DriverState<T>,
    queue_after: Seq<Event<()>>,
    step: Step<T>,
) -> bool {
    let outcome = before.advance(
        target.spec_control_flow(),
        target.spec_exiting(),
        queue,
        now,
        received,
    );
    &&& received is Some ==> before.wants_user_event(queue.len() == 0, now)
    &&& after == outcome.driver
    &&& queue_after == outcome.queue
    &&& step == outcome.step
}

/// The loop: the application's handle, both ends of the user event channel, and the
/// driver that orders the stream.
#[verifier::reject_recursive_types(T)]
pub struct EventLoop<T> {
    elw: ActiveEventLoop,
    user_event_sender: Sender<T>,
    user_event_receiver: Option<Receiver<T>>,
    driver: Driver<T>,
}

impl<T: 'static> EventLoop<T> {
    /// The driver's state.
    pub closed spec fn state(&self) -> DriverState<T> {
        self.driver@
    }

    /// The application's handle on the loop.
    pub closed spec fn spec_window_target(&self) -> ActiveEventLoop {
        self.elw
    }

    /// The loop's own sending end of the user event channel, which stands for that
    /// channel.
    pub closed spec fn spec_sender(&self) -> Sender<T> {
        self.user_event_sender
    }

    /// Whether the loop still holds the receiving end of the user event channel.
    pub closed spec fn receives_user_events(&self) -> bool {
        self.user_event_receiver is Some
    }

    /// A loop that has delivered nothing, waits, and yields for the default quantum when
    /// it polls.
    pub fn new(_attrs: &mut PlatformSpecificEventLoopAttributes) -> (r: Result<
        EventLoop<T>,
        EventLoopError,
    >)
        ensures
            r matches Ok(event_loop) && event_loop.state() == DriverState::<T>::initial(
                Duration { nanos: (DEFAULT_POLL_QUANTUM_MILLIS * 1_000_000) as u64 },
            ) && event_loop.spec_window_target().spec_control_flow() == ControlFlow::Wait
                && !event_loop.spec_window_target().spec_exiting()
                && event_loop.receives_user_events(),
            *final(_attrs) == *old(_attrs),
    {
        Ok(EventLoop::with_poll_quantum(Duration::from_millis(DEFAULT_POLL_QUANTUM_MILLIS)))
    }

    /// A loop that has delivered nothing, waits, and yields for `poll_quantum` when it
    /// polls. The quantum is more than nothing, so that a polling loop does not spin.
    pub fn with_poll_quantum(poll_quantum: Duration) -> (event_loop: EventLoop<T>)
        requires
            poll_quantum.nanos > 0,
        ensures
            event_loop.state() == DriverState::<T>::initial(poll_quantum),
            event_loop.spec_window_target().spec_control_flow() == ControlFlow::Wait,
            !event_loop.spec_window_target().spec_exiting(),
            event_loop.receives_user_events(),
    {
        let (user_event_sender, user_event_receiver) = open_channel();
        EventLoop {
            elw: ActiveEventLoop::new(),
            user_event_sender,
            user_event_receiver: Some(user_event_receiver),
            driver: Driver::new(poll_quantum),
        }
    }

    /// A handle that sends user events to this loop: it feeds the loop's own channel.
    pub fn create_proxy(&self) -> (proxy: EventLoopProxy<T>)
        ensures
            proxy.spec_sender() == self.spec_sender(),
    {
        EventLoopProxy { sender: clone_sender(&self.user_event_sender) }
    }

    /// The application's handle on the loop.
    pub fn window_target(&self) -> (target: &ActiveEventLoop)
        ensures
            *target == self.spec_window_target(),
    {
        &self.elw
    }

    /// The application's handle, to be lent to the application callback for the length
    /// of one dispatch.
    pub fn window_target_mut(&mut self) -> (target: &mut ActiveEventLoop)
        ensures
            *target == old(self).spec_window_target(),
            final(self).spec_window_target() == *final(target),
            final(self).state() == old(self).state(),
            final(self).receives_user_events() == old(self).receives_user_events(),
            final(self).spec_sender() == old(self).spec_sender(),
    {
        &mut self.elw
    }

    /// Where the loop stands.
    pub fn phase(&self) -> (phase: Phase)
        ensures
            phase == self.state().phase,
    {
        self.driver.phase()
    }

    /// How long the loop yields between two iterations when it polls.
    pub fn poll_quantum(&self) -> (quantum: Duration)
        ensures
            quantum == self.state().poll_quantum,
    {
        self.driver.poll_quantum()
    }

    /// Whether the next step would take a user event from the queue `hub`, on which no
    /// step is defined.
    pub fn meets_user_event(&self, hub: &EventHub) -> (b: bool)
        ensures
            b == self.state().meets_user_event(hub@),
    {
        self.driver.meets_user_event(hub)
    }

    /// How long the consumer may block at `now` before it must ask for its next step;
    /// `None` where only a producer can wake it.
    pub fn park_timeout(&self, now: Instant) -> (limit: Option<Duration>)
        ensures
            limit == self.state().park_timeout(now),
    {
        self.driver.park_timeout(now)
    }

    /// Takes one step of the loop at `now`: the next event to dispatch, a request to
    /// suspend, or the news that the loop has ended.
    ///
    /// Where the driver can use a user event the step takes one from the channel without
    /// blocking; whatever the channel yields, the step is the driver's step for it. The
    /// step that delivers `LoopExiting` drops the receiving end of the channel, so that
    /// every later send fails. No step is defined where it would take a user event from
    /// the queue; `meets_user_event` tells beforehand.
    pub fn next_step(&mut self, hub: &mut EventHub, now: Instant) -> (step: Step<T>)
        requires
            !old(self).state().meets_user_event(old(hub)@),
        ensures
            exists|received: Option<T>| #[trigger]
                is_step_with(
                    old(self).state(),
                    old(self).spec_window_target(),
                    old(hub)@,
                    now,
                    received,
                    final(self).state(),
                    final(hub)@,
                    step,
                ),
            final(self).spec_window_target() == old(self).spec_window_target(),
            final(self).spec_sender() == old(self).spec_sender(),
            final(self).state().phase == Phase::Terminated ==> !final(self).receives_user_events(),
            final(self).state().phase != Phase::Terminated ==> final(self).receives_user_events()
                == old(self).receives_user_events(),
    {
        let received = if self.driver.wants_user_event(hub.is_empty(), now) {
            match &self.user_event_receiver {
                Some(receiver) => try_receive(receiver),
                None => None,
            }
        } else {
            None
        };
        let ghost probe = received;
        let step = self.driver.advance(
            self.elw.control_flow(),
            self.elw.exiting(),
            hub,
            now,
            received,
        );
        if self.driver.is_terminated() {
            self.user_event_receiver = None;
        }
        assert(is_step_with(
            old(self).state(),
            old(self).spec_window_target(),
            old(hub)@,
            now,
            probe,
            self.state(),
            hub@,
            step,
        ));
        step
    }
}

} // verus!
