use deft_winit::control_flow::{Action, ControlFlow};
use deft_winit::driver::{Driver, Phase, Step};
use deft_winit::event::{DeviceId, ElementState, Event, MouseButton, StartCause, WindowEvent};
use deft_winit::event_hub::EventHub;
use deft_winit::time::{Duration, Instant};
use deft_winit::window::WindowId;

fn at(millis: u64) -> Instant {
    Instant::from_millis(millis)
}

fn click(button: MouseButton) -> Event<()> {
    Event::WindowEvent {
        window_id: WindowId(0),
        event: WindowEvent::MouseInput {
            device_id: DeviceId,
            state: ElementState::Pressed,
            button,
        },
    }
}

fn delivered_click(button: MouseButton) -> Step<u32> {
    Step::Deliver(Event::WindowEvent {
        window_id: WindowId(0),
        event: WindowEvent::MouseInput {
            device_id: DeviceId,
            state: ElementState::Pressed,
            button,
        },
    })
}

fn quantum() -> Duration {
    Duration::from_millis(10)
}

/// Drives a fresh driver to the point where `AboutToWait` of the first iteration has
/// been delivered.
fn driver_about_to_wait(hub: &mut EventHub) -> Driver<u32> {
    let mut driver: Driver<u32> = Driver::new(quantum());
    assert_eq!(
        driver.advance(ControlFlow::Wait, false, hub, at(0), None),
        Step::Deliver(Event::Resumed)
    );
    assert_eq!(
        driver.advance(ControlFlow::Wait, false, hub, at(0), None),
        Step::Deliver(Event::NewEvents(StartCause::Init))
    );
    assert_eq!(
        driver.advance(ControlFlow::Wait, false, hub, at(0), None),
        Step::Deliver(Event::AboutToWait)
    );
    assert_eq!(driver.phase(), Phase::AboutToWait);
    driver
}

#[test]
fn a_fresh_driver_has_delivered_nothing() {
    let driver: Driver<u32> = Driver::new(quantum());
    assert_eq!(driver.phase(), Phase::Created);
    assert_eq!(driver.poll_quantum(), quantum());
    assert_eq!(driver.backlog_len(), 0);
    assert!(!driver.is_terminated());
    assert!(!driver.wants_user_event(true, at(0)));
}

#[test]
fn resumed_comes_first_and_once() {
    let mut hub = EventHub::new();
    hub.send_event(click(MouseButton::Left));
    let mut driver: Driver<u32> = Driver::new(quantum());
    let first = driver.advance(ControlFlow::Wait, false, &mut hub, at(0), None);
    assert_eq!(first, Step::Deliver(Event::Resumed));
    assert_eq!(driver.phase(), Phase::Resumed);
    let second = driver.advance(ControlFlow::Wait, false, &mut hub, at(0), None);
    assert_eq!(second, Step::Deliver(Event::NewEvents(StartCause::Init)));
    let mut steps = Vec::new();
    for i in 0..40u64 {
        hub.send_event(click(MouseButton::Other(i as u16)));
        steps.push(driver.advance(ControlFlow::Poll, false, &mut hub, at(i * 7), None));
    }
    assert!(steps.iter().all(|step| *step != Step::Deliver(Event::Resumed)));
    assert_eq!(hub.len(), 1 + 40 - steps.iter().filter(|s| matches!(s, Step::Deliver(Event::WindowEvent { .. }))).count());
}

#[test]
fn one_iteration_delivers_window_events_then_user_events_then_about_to_wait() {
    let mut hub = EventHub::new();
    let mut driver: Driver<u32> = Driver::new(quantum());
    driver.advance(ControlFlow::Wait, false, &mut hub, at(0), None);
    hub.send_event(click(MouseButton::Left));
    hub.send_event(click(MouseButton::Right));
    assert_eq!(
        driver.advance(ControlFlow::Wait, false, &mut hub, at(1), None),
        Step::Deliver(Event::NewEvents(StartCause::Init))
    );
    assert_eq!(driver.phase(), Phase::DrainingEvents);
    assert!(!driver.wants_user_event(false, at(1)));
    // a user event that arrives early waits for the window events
    assert_eq!(
        driver.advance(ControlFlow::Wait, false, &mut hub, at(1), Some(11)),
        delivered_click(MouseButton::Left)
    );
    assert_eq!(driver.backlog_len(), 1);
    // an event enqueued during the drain is part of the same drain
    hub.send_event(click(MouseButton::Middle));
    assert_eq!(
        driver.advance(ControlFlow::Wait, false, &mut hub, at(1), None),
        delivered_click(MouseButton::Right)
    );
    assert_eq!(
        driver.advance(ControlFlow::Wait, false, &mut hub, at(1), None),
        delivered_click(MouseButton::Middle)
    );
    assert!(hub.is_empty());
    assert!(!driver.wants_user_event(true, at(1)));
    assert_eq!(
        driver.advance(ControlFlow::Wait, false, &mut hub, at(1), None),
        Step::Deliver(Event::UserEvent(11))
    );
    assert_eq!(driver.phase(), Phase::DrainingUserEvents);
    assert!(driver.wants_user_event(true, at(1)));
    assert!(driver.wants_user_event(false, at(1)));
    // window events that arrive now wait for the next iteration
    hub.send_event(click(MouseButton::Back));
    assert_eq!(
        driver.advance(ControlFlow::Wait, false, &mut hub, at(1), Some(12)),
        Step::Deliver(Event::UserEvent(12))
    );
    assert_eq!(
        driver.advance(ControlFlow::Wait, false, &mut hub, at(1), None),
        Step::Deliver(Event::AboutToWait)
    );
    assert_eq!(driver.phase(), Phase::AboutToWait);
    assert_eq!(hub.len(), 1);
    assert!(!driver.wants_user_event(false, at(1)));
}

#[test]
fn user_events_leave_the_backlog_in_the_order_of_their_arrival() {
    let mut hub = EventHub::new();
    let mut driver: Driver<u32> = Driver::new(quantum());
    driver.advance(ControlFlow::Wait, false, &mut hub, at(0), Some(1));
    driver.advance(ControlFlow::Wait, false, &mut hub, at(0), Some(2));
    assert_eq!(driver.backlog_len(), 2);
    assert_eq!(
        driver.advance(ControlFlow::Wait, false, &mut hub, at(0), Some(3)),
        Step::Deliver(Event::UserEvent(1))
    );
    assert_eq!(
        driver.advance(ControlFlow::Wait, false, &mut hub, at(0), None),
        Step::Deliver(Event::UserEvent(2))
    );
    assert_eq!(
        driver.advance(ControlFlow::Wait, false, &mut hub, at(0), None),
        Step::Deliver(Event::UserEvent(3))
    );
    assert_eq!(
        driver.advance(ControlFlow::Wait, false, &mut hub, at(0), None),
        Step::Deliver(Event::AboutToWait)
    );
}

#[test]
fn loop_exiting_is_delivered_once_and_last() {
    let mut hub = EventHub::new();
    let mut driver = driver_about_to_wait(&mut hub);
    hub.send_event(click(MouseButton::Left));
    assert_eq!(
        driver.advance(ControlFlow::Poll, true, &mut hub, at(5), Some(4)),
        Step::Deliver(Event::LoopExiting)
    );
    assert_eq!(driver.phase(), Phase::Terminated);
    assert!(driver.is_terminated());
    for i in 0..10 {
        hub.send_event(click(MouseButton::Right));
        let step = driver.advance(ControlFlow::Poll, i % 2 == 0, &mut hub, at(100 + i), None);
        assert_eq!(step, Step::Terminated);
        assert_eq!(driver.phase(), Phase::Terminated);
    }
    assert_eq!(hub.len(), 11);
    assert!(!driver.wants_user_event(true, at(200)));
}

#[test]
fn exit_is_read_after_about_to_wait_only() {
    let mut hub = EventHub::new();
    let mut driver: Driver<u32> = Driver::new(quantum());
    assert_eq!(
        driver.advance(ControlFlow::Wait, true, &mut hub, at(0), None),
        Step::Deliver(Event::Resumed)
    );
    assert_eq!(
        driver.advance(ControlFlow::Wait, true, &mut hub, at(0), None),
        Step::Deliver(Event::NewEvents(StartCause::Init))
    );
    assert_eq!(
        driver.advance(ControlFlow::Wait, true, &mut hub, at(0), None),
        Step::Deliver(Event::AboutToWait)
    );
    assert_eq!(
        driver.advance(ControlFlow::Wait, true, &mut hub, at(0), None),
        Step::Deliver(Event::LoopExiting)
    );
    assert_eq!(driver.advance(ControlFlow::Wait, true, &mut hub, at(0), None), Step::Terminated);
}

#[test]
fn wait_until_resumes_at_the_deadline() {
    let mut hub = EventHub::new();
    let mut driver = driver_about_to_wait(&mut hub);
    let now = at(1000);
    let deadline = at(1050);
    assert_eq!(
        driver.advance(ControlFlow::WaitUntil(deadline), false, &mut hub, now, None),
        Step::Park(Action::SleepUntil(deadline))
    );
    assert_eq!(driver.phase(), Phase::Parked);
    assert_eq!(driver.parked_at(), now);
    assert_eq!(driver.parked_mode(), ControlFlow::WaitUntil(deadline));
    assert!(driver.wants_user_event(true, at(1020)));
    assert!(!driver.wants_user_event(false, at(1020)));
    assert!(!driver.wants_user_event(true, at(1050)));
    // a wake before the deadline without an event is no wake
    assert_eq!(
        driver.advance(ControlFlow::Poll, false, &mut hub, at(1020), None),
        Step::Park(Action::SleepUntil(deadline))
    );
    assert_eq!(
        driver.advance(ControlFlow::Poll, false, &mut hub, at(1049), None),
        Step::Park(Action::SleepUntil(deadline))
    );
    assert_eq!(driver.phase(), Phase::Parked);
    assert_eq!(
        driver.advance(ControlFlow::Poll, false, &mut hub, at(1050), None),
        Step::Deliver(Event::NewEvents(StartCause::ResumeTimeReached {
            start: now,
            requested_resume: deadline,
        }))
    );
    assert_eq!(driver.phase(), Phase::DrainingEvents);
}

#[test]
fn a_producer_event_cancels_a_timed_wait() {
    let mut hub = EventHub::new();
    let mut driver = driver_about_to_wait(&mut hub);
    let now = at(1000);
    let deadline = at(6000);
    assert_eq!(
        driver.advance(ControlFlow::WaitUntil(deadline), false, &mut hub, now, None),
        Step::Park(Action::SleepUntil(deadline))
    );
    hub.send_event(click(MouseButton::Left));
    assert_eq!(
        driver.advance(ControlFlow::Wait, false, &mut hub, at(1010), None),
        Step::Deliver(Event::NewEvents(StartCause::WaitCancelled {
            start: now,
            requested_resume: Some(deadline),
        }))
    );
    assert_eq!(
        driver.advance(ControlFlow::Wait, false, &mut hub, at(1010), None),
        delivered_click(MouseButton::Left)
    );
}

#[test]
fn a_user_event_cancels_a_timed_wait() {
    let mut hub = EventHub::new();
    let mut driver = driver_about_to_wait(&mut hub);
    let deadline = at(6000);
    driver.advance(ControlFlow::WaitUntil(deadline), false, &mut hub, at(1000), None);
    assert_eq!(
        driver.advance(ControlFlow::Wait, false, &mut hub, at(1010), Some(77)),
        Step::Deliver(Event::NewEvents(StartCause::WaitCancelled {
            start: at(1000),
            requested_resume: Some(deadline),
        }))
    );
    assert_eq!(
        driver.advance(ControlFlow::Wait, false, &mut hub, at(1010), None),
        Step::Deliver(Event::UserEvent(77))
    );
}

#[test]
fn a_deadline_in_the_past_resumes_at_once() {
    let mut hub = EventHub::new();
    let mut driver = driver_about_to_wait(&mut hub);
    let deadline = at(900);
    assert_eq!(
        driver.advance(ControlFlow::WaitUntil(deadline), false, &mut hub, at(1000), None),
        Step::Park(Action::SleepUntil(at(1000)))
    );
    hub.send_event(click(MouseButton::Left));
    assert_eq!(
        driver.advance(ControlFlow::WaitUntil(deadline), false, &mut hub, at(1000), None),
        Step::Deliver(Event::NewEvents(StartCause::ResumeTimeReached {
            start: at(1000),
            requested_resume: deadline,
        }))
    );
}

#[test]
fn a_wait_without_deadline_ends_with_a_producer_event() {
    let mut hub = EventHub::new();
    let mut driver = driver_about_to_wait(&mut hub);
    assert_eq!(
        driver.advance(ControlFlow::Wait, false, &mut hub, at(10), None),
        Step::Park(Action::SleepIndefinite)
    );
    assert!(driver.wants_user_event(true, at(5_000_000)));
    assert_eq!(
        driver.advance(ControlFlow::Wait, false, &mut hub, at(5_000_000), None),
        Step::Park(Action::SleepIndefinite)
    );
    hub.send_event(click(MouseButton::Left));
    assert_eq!(
        driver.advance(ControlFlow::Wait, false, &mut hub, at(5_000_001), None),
        Step::Deliver(Event::NewEvents(StartCause::WaitCancelled {
            start: at(10),
            requested_resume: None,
        }))
    );
}

#[test]
fn an_event_left_in_the_queue_keeps_the_loop_from_sleeping() {
    let mut hub = EventHub::new();
    let mut driver = driver_about_to_wait(&mut hub);
    hub.send_event(click(MouseButton::Left));
    assert_eq!(
        driver.advance(ControlFlow::Wait, false, &mut hub, at(10), None),
        Step::Park(Action::SleepIndefinite)
    );
    assert_eq!(
        driver.advance(ControlFlow::Wait, false, &mut hub, at(10), None),
        Step::Deliver(Event::NewEvents(StartCause::WaitCancelled {
            start: at(10),
            requested_resume: None,
        }))
    );
}

#[test]
fn polling_iterations_are_a_quantum_apart() {
    let mut hub = EventHub::new();
    let mut driver = driver_about_to_wait(&mut hub);
    assert_eq!(
        driver.advance(ControlFlow::Poll, false, &mut hub, at(100), None),
        Step::Park(Action::Immediate)
    );
    assert!(!driver.wants_user_event(true, at(100)));
    hub.send_event(click(MouseButton::Left));
    assert_eq!(
        driver.advance(ControlFlow::Poll, false, &mut hub, at(105), None),
        Step::Park(Action::Immediate)
    );
    assert_eq!(
        driver.advance(ControlFlow::Poll, false, &mut hub, at(109), None),
        Step::Park(Action::Immediate)
    );
    assert_eq!(
        driver.advance(ControlFlow::Poll, false, &mut hub, at(110), None),
        Step::Deliver(Event::NewEvents(StartCause::Poll))
    );
    assert_eq!(
        driver.advance(ControlFlow::Poll, false, &mut hub, at(110), None),
        delivered_click(MouseButton::Left)
    );
    assert_eq!(
        driver.advance(ControlFlow::Poll, false, &mut hub, at(110), None),
        Step::Deliver(Event::AboutToWait)
    );
    assert_eq!(
        driver.advance(ControlFlow::Poll, false, &mut hub, at(111), None),
        Step::Park(Action::Immediate)
    );
    assert_eq!(driver.parked_at(), at(111));
    assert_eq!(
        driver.advance(ControlFlow::Poll, false, &mut hub, at(120), None),
        Step::Park(Action::Immediate)
    );
    assert_eq!(
        driver.advance(ControlFlow::Poll, false, &mut hub, at(121), None),
        Step::Deliver(Event::NewEvents(StartCause::Poll))
    );
}

#[test]
fn the_mode_of_a_park_is_the_control_flow_at_its_start() {
    let mut hub = EventHub::new();
    let mut driver = driver_about_to_wait(&mut hub);
    driver.advance(ControlFlow::Wait, false, &mut hub, at(10), None);
    // what is set while the loop is parked does not count
    assert_eq!(
        driver.advance(ControlFlow::Poll, true, &mut hub, at(1000), None),
        Step::Park(Action::SleepIndefinite)
    );
    assert_eq!(driver.parked_mode(), ControlFlow::Wait);
}

#[test]
fn the_timeout_of_a_park_ends_at_the_wake() {
    let mut hub = EventHub::new();
    let mut driver = driver_about_to_wait(&mut hub);
    assert_eq!(driver.park_timeout(at(0)), Some(Duration::zero()));
    driver.advance(ControlFlow::Poll, false, &mut hub, at(100), None);
    assert_eq!(driver.park_timeout(at(100)), Some(Duration::from_millis(10)));
    assert_eq!(driver.park_timeout(at(104)), Some(Duration::from_millis(6)));
    assert_eq!(driver.park_timeout(at(110)), Some(Duration::zero()));
    assert_eq!(driver.park_timeout(at(500)), Some(Duration::zero()));
    assert_eq!(driver.park_timeout(at(50)), Some(Duration::from_millis(10)));

    let mut driver = driver_about_to_wait(&mut hub);
    driver.advance(ControlFlow::Wait, false, &mut hub, at(100), None);
    assert_eq!(driver.park_timeout(at(100)), None);
    assert_eq!(driver.park_timeout(at(100_000)), None);

    let mut driver = driver_about_to_wait(&mut hub);
    driver.advance(ControlFlow::WaitUntil(at(150)), false, &mut hub, at(100), None);
    assert_eq!(driver.park_timeout(at(100)), Some(Duration::from_millis(50)));
    assert_eq!(driver.park_timeout(at(149)), Some(Duration::from_millis(1)));
    assert_eq!(driver.park_timeout(at(150)), Some(Duration::zero()));
    assert_eq!(driver.park_timeout(at(151)), Some(Duration::zero()));
}

#[test]
fn the_loop_delivers_whatever_a_producer_enqueued() {
    let mut hub = EventHub::new();
    let mut driver: Driver<u32> = Driver::new(quantum());
    driver.advance(ControlFlow::Wait, false, &mut hub, at(0), None);
    driver.advance(ControlFlow::Wait, false, &mut hub, at(0), None);
    hub.send_event(Event::Suspended);
    hub.send_event(click(MouseButton::Left));
    hub.send_event(Event::AboutToWait);
    assert!(!driver.meets_user_event(&hub));
    assert_eq!(
        driver.advance(ControlFlow::Wait, false, &mut hub, at(0), None),
        Step::Deliver(Event::Suspended)
    );
    assert_eq!(
        driver.advance(ControlFlow::Wait, false, &mut hub, at(0), None),
        delivered_click(MouseButton::Left)
    );
    assert_eq!(
        driver.advance(ControlFlow::Wait, false, &mut hub, at(0), None),
        Step::Deliver(Event::AboutToWait)
    );
    assert_eq!(driver.phase(), Phase::DrainingEvents);
    assert!(hub.is_empty());
    assert_eq!(
        driver.advance(ControlFlow::Wait, false, &mut hub, at(0), None),
        Step::Deliver(Event::AboutToWait)
    );
    assert_eq!(driver.phase(), Phase::AboutToWait);
}

#[test]
fn a_user_event_in_the_queue_is_met_while_the_queue_is_drained() {
    let mut hub = EventHub::new();
    let mut driver: Driver<u32> = Driver::new(quantum());
    hub.send_event(Event::UserEvent(()));
    assert!(!driver.meets_user_event(&hub));
    driver.advance(ControlFlow::Wait, false, &mut hub, at(0), None);
    assert!(!driver.meets_user_event(&hub));
    driver.advance(ControlFlow::Wait, false, &mut hub, at(0), None);
    assert_eq!(driver.phase(), Phase::DrainingEvents);
    assert!(driver.meets_user_event(&hub));
    assert_eq!(hub.pop_event(), Some(Event::UserEvent(())));
    assert!(!driver.meets_user_event(&hub));
    assert_eq!(
        driver.advance(ControlFlow::Wait, false, &mut hub, at(0), None),
        Step::Deliver(Event::AboutToWait)
    );
}
