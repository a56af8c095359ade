//! The touch screen as a producer: which events its touches, its on-screen keyboard and
//! its gesture recognizers enqueue.

use crate::event::{
    DeviceId, ElementState, Event, Force, Ime, KeyEvent, KeyEventExtra, Touch, TouchPhase,
    WindowEvent,
};
use crate::event_hub::EventHub;
use crate::geometry::{F64Bits, PhysicalPosition};
use crate::keyboard::{
    smol_from_char, smol_text, Key, KeyCode, KeyLocation, NamedKey, NativeKeyCode, PhysicalKey,
};
use crate::window::WindowId;
use vstd::prelude::*;

verus! {

/// The phase of a touch as the system reports it.
#[derive(Debug, Copy, Clone, PartialEq, Eq, Hash, Structural)]
pub enum UiTouchPhase {
    Began,
    Moved,
    Stationary,
    Ended,
    Cancelled,
    RegionEntered,
    RegionMoved,
    RegionExited,
}

/// The phase of the touch event for a reported phase. A view is told of touches that
/// begin, move, end or are cancelled; the other phases have no touch event.
pub open spec fn spec_touch_phase(phase: UiTouchPhase) -> Option<TouchPhase> {
    match phase {
        UiTouchPhase::Began => Some(TouchPhase::Started),
        UiTouchPhase::Moved => Some(TouchPhase::Moved),
        UiTouchPhase::Ended => Some(TouchPhase::Ended),
        UiTouchPhase::Cancelled => Some(TouchPhase::Cancelled),
        _ => None,
    }
}

#[verifier::when_used_as_spec(spec_touch_phase)]
pub fn touch_phase(phase: UiTouchPhase) -> (mapped: Option<TouchPhase>)
    ensures
        mapped == spec_touch_phase(phase),
{
    match phase {
        UiTouchPhase::Began => Some(TouchPhase::Started),
        UiTouchPhase::Moved => Some(TouchPhase::Moved),
        UiTouchPhase::Ended => Some(TouchPhase::Ended),
        UiTouchPhase::Cancelled => Some(TouchPhase::Cancelled),
        _ => None,
    }
}

/// What the system reports of one touch, with its location already in physical pixels
/// and its phase already that of the touch event.
#[derive(Debug, Copy, Clone, PartialEq, Eq, Structural)]
pub struct TouchReport {
    /// A number that stays with the touch from its beginning to its end.
    pub id: u64,
    pub location: PhysicalPosition<F64Bits>,
    pub phase: TouchPhase,
    /// Whether a stylus made the touch.
    pub is_pencil: bool,
    pub force: F64Bits,
    pub max_possible_force: F64Bits,
    /// The angle between stylus and surface; it means something for a stylus only.
    pub altitude_angle: F64Bits,
}

/// The force of a touch. It is known where the system can measure force at all and
/// either the device senses it or a stylus made the touch; the angle is that of a stylus.
pub open spec fn spec_touch_force(
    os_supports_force: bool,
    device_senses_force: bool,
    report: TouchReport,
) -> Option<Force> {
    if os_supports_force && (device_senses_force || report.is_pencil) {
        Some(
            Force::Calibrated {
                force: report.force,
                max_possible_force: report.max_possible_force,
                altitude_angle: if report.is_pencil {
                    Some(report.altitude_angle)
                } else {
                    None
                },
            },
        )
    } else {
        None
    }
}

#[verifier::when_used_as_spec(spec_touch_force)]
pub fn touch_force(os_supports_force: bool, device_senses_force: bool, report: TouchReport) -> (force:
    Option<Force>)
    ensures
        force == spec_touch_force(os_supports_force, device_senses_force, report),
{
    if os_supports_force && (device_senses_force || report.is_pencil) {
        let altitude_angle = if report.is_pencil {
            Some(report.altitude_angle)
        } else {
            None
        };
        Some(
            Force::Calibrated {
                force: report.force,
                max_possible_force: report.max_possible_force,
                altitude_angle,
            },
        )
    } else {
        None
    }
}

/// The touch event of `window_id` for a reported touch.
pub open spec fn touch_event(
    window_id: WindowId,
    os_supports_force: bool,
    device_senses_force: bool,
    report: TouchReport,
) -> Event<()> {
    Event::WindowEvent {
        window_id,
        event: WindowEvent::Touch(
            Touch {
                device_id: DeviceId,
                id: report.id,
                location: report.location,
                force: spec_touch_force(os_supports_force, device_senses_force, report),
                phase: report.phase,
            },
        ),
    }
}

/// The touch events of `window_id` for `touches`, one for each and in their order.
pub open spec fn touch_events(
    window_id: WindowId,
    os_supports_force: bool,
    device_senses_force: bool,
    touches: Seq<TouchReport>,
) -> Seq<Event<()>> {
    Seq::new(
        touches.len(),
        |i: int| touch_event(window_id, os_supports_force, device_senses_force, touches[i]),
    )
}

/// Enqueues one touch event for each of `touches`, in their order.
pub fn handle_touches(
    hub: &mut EventHub,
    window_id: WindowId,
    os_supports_force: bool,
    device_senses_force: bool,
    touches: &Vec<TouchReport>,
)
    ensures
        final(hub)@ == old(hub)@ + touch_events(
            window_id,
            os_supports_force,
            device_senses_force,
            touches@,
        ),
{
    let mut i: usize = 0;
    while i < touches.len()
        invariant
            i <= touches@.len(),
            hub@ == old(hub)@ + touch_events(
                window_id,
                os_supports_force,
                device_senses_force,
                touches@.take(i as int),
            ),
        decreases touches@.len() - i,
    {
        let report = touches[i];
        let force = touch_force(os_supports_force, device_senses_force, report);
        hub.send_event(
            Event::WindowEvent {
                window_id,
                event: WindowEvent::Touch(
                    Touch {
                        device_id: DeviceId,
                        id: report.id,
                        location: report.location,
                        force,
                        phase: report.phase,
                    },
                ),
            },
        );
        assert(touches@.take(i + 1) =~= touches@.take(i as int).push(touches@[i as int]));
        assert(hub@ =~= old(hub)@ + touch_events(
            window_id,
            os_supports_force,
            device_senses_force,
            touches@.take(i + 1),
        ));
        i += 1;
    }
    assert(touches@.take(i as int) =~= touches@);
}

/// Whether `event` is the keyboard event of `window_id` for the character `c` typed on
/// the on-screen keyboard: the key is the character itself and has no physical
/// counterpart; only the press carries the character as text.
pub open spec fn is_typed_character(
    event: Event<()>,
    window_id: WindowId,
    c: char,
    state: ElementState,
) -> bool {
    &&& event matches Event::WindowEvent {
        window_id: target,
        event: WindowEvent::KeyboardInput { device_id, event: key_event, is_synthetic },
    }
    &&& target == window_id
    &&& !is_synthetic
    &&& key_event.state == state
    &&& key_event.location == KeyLocation::Standard
    &&& !key_event.repeat
    &&& key_event.physical_key == PhysicalKey::Unidentified(NativeKeyCode::Unidentified)
    &&& key_event.logical_key matches Key::Character(held)
    &&& smol_text(held) == seq![c]
    &&& if state == ElementState::Pressed {
        key_event.text matches Some(text) && smol_text(text) == seq![c]
    } else {
        key_event.text is None
    }
}

/// Whether `added` is what typing `text` enqueues for `window_id`: for each character,
/// in order, its press and then its release.
pub open spec fn is_typed_text(added: Seq<Event<()>>, window_id: WindowId, text: Seq<char>) -> bool {
    &&& added.len() == 2 * text.len()
    &&& forall|i: int|
        0 <= i < text.len() ==> is_typed_character(
            #[trigger] added[2 * i],
            window_id,
            text[i],
            ElementState::Pressed,
        )
    &&& forall|i: int|
        0 <= i < text.len() ==> is_typed_character(
            #[trigger] added[2 * i + 1],
            window_id,
            text[i],
            ElementState::Released,
        )
}

fn typed_character(window_id: WindowId, c: char, state: ElementState) -> (event: WindowEvent)
    ensures
        is_typed_character(Event::<()>::WindowEvent { window_id, event }, window_id, c, state),
{
    let text = smol_from_char(c);
    let shown = match state {
        ElementState::Pressed => Some(text.clone()),
        ElementState::Released => None,
    };
    WindowEvent::KeyboardInput {
        event: KeyEvent {
            text: shown,
            state,
            location: KeyLocation::Standard,
            repeat: false,
            logical_key: Key::Character(text),
            physical_key: PhysicalKey::Unidentified(NativeKeyCode::Unidentified),
            platform_specific: KeyEventExtra,
        },
        is_synthetic: false,
        device_id: DeviceId,
    }
}

/// Enqueues the key events for `text` typed on the on-screen keyboard: for each
/// character, in order, a press and a release.
pub fn handle_insert_text(hub: &mut EventHub, window_id: WindowId, text: &str)
    ensures
        final(hub)@.len() == old(hub)@.len() + 2 * text@.len(),
        final(hub)@.subrange(0, old(hub)@.len() as int) == old(hub)@,
        is_typed_text(
            final(hub)@.subrange(old(hub)@.len() as int, final(hub)@.len() as int),
            window_id,
            text@,
        ),
{
    let ghost before = hub@;
    let mut chars = text.chars();
    for c in it: chars
        invariant
            it.seq() == text@,
            hub@.len() == before.len() + 2 * it.index(),
            hub@.subrange(0, before.len() as int) == before,
            is_typed_text(
                hub@.subrange(before.len() as int, hub@.len() as int),
                window_id,
                text@.take(it.index() as int),
            ),
    {
        let ghost queued = hub@;
        let ghost n = it.index() as int;
        let pressed = typed_character(window_id, c, ElementState::Pressed);
        let released = typed_character(window_id, c, ElementState::Released);
        hub.send_event(Event::WindowEvent { window_id, event: pressed });
        hub.send_event(Event::WindowEvent { window_id, event: released });
        proof {
            let added = hub@.subrange(before.len() as int, hub@.len() as int);
            let earlier = queued.subrange(before.len() as int, queued.len() as int);
            assert(hub@.subrange(0, before.len() as int) =~= before);
            assert(added.len() == 2 * (n + 1));
            assert(text@.take(n + 1).len() == n + 1);
            assert forall|i: int| 0 <= i < n + 1 implies is_typed_character(
                #[trigger] added[2 * i],
                window_id,
                text@.take(n + 1)[i],
                ElementState::Pressed,
            ) by {
                if i < n {
                    assert(added[2 * i] == earlier[2 * i]);
                    assert(text@.take(n + 1)[i] == text@.take(n)[i]);
                } else {
                    assert(added[2 * i] == Event::<()>::WindowEvent { window_id, event: pressed });
                }
            }
            assert forall|i: int| 0 <= i < n + 1 implies is_typed_character(
                #[trigger] added[2 * i + 1],
                window_id,
                text@.take(n + 1)[i],
                ElementState::Released,
            ) by {
                if i < n {
                    assert(added[2 * i + 1] == earlier[2 * i + 1]);
                    assert(text@.take(n + 1)[i] == text@.take(n)[i]);
                } else {
                    assert(added[2 * i + 1] == Event::<()>::WindowEvent { window_id, event: released });
                }
            }
        }
    }
    assert(text@.take(text@.len() as int) =~= text@);
}

/// The key event of `window_id` for the backspace key of the on-screen keyboard.
pub open spec fn backspace_event(window_id: WindowId, state: ElementState) -> Event<()> {
    Event::WindowEvent {
        window_id,
        event: WindowEvent::KeyboardInput {
            device_id: DeviceId,
            event: KeyEvent {
                state,
                logical_key: Key::Named(NamedKey::Backspace),
                physical_key: PhysicalKey::Code(KeyCode::Backspace),
                platform_specific: KeyEventExtra,
                repeat: false,
                location: KeyLocation::Standard,
                text: None,
            },
            is_synthetic: false,
        },
    }
}

fn backspace(window_id: WindowId, state: ElementState) -> (event: WindowEvent)
    ensures
        backspace_event(window_id, state) == (Event::<()>::WindowEvent { window_id, event }),
{
    WindowEvent::KeyboardInput {
        device_id: DeviceId,
        event: KeyEvent {
            state,
            logical_key: Key::Named(NamedKey::Backspace),
            physical_key: PhysicalKey::Code(KeyCode::Backspace),
            platform_specific: KeyEventExtra,
            repeat: false,
            location: KeyLocation::Standard,
            text: None,
        },
        is_synthetic: false,
    }
}

/// Enqueues the press and the release of the backspace key.
pub fn handle_delete_backward(hub: &mut EventHub, window_id: WindowId)
    ensures
        final(hub)@ == old(hub)@.push(backspace_event(window_id, ElementState::Pressed)).push(
            backspace_event(window_id, ElementState::Released),
        ),
{
    let pressed = backspace(window_id, ElementState::Pressed);
    hub.send_event(Event::WindowEvent { window_id, event: pressed });
    let released = backspace(window_id, ElementState::Released);
    hub.send_event(Event::WindowEvent { window_id, event: released });
}

/// Enqueues an input-method event for `window_id`.
pub fn handle_ime(hub: &mut EventHub, window_id: WindowId, ime: Ime)
    ensures
        final(hub)@ == old(hub)@.push(
            Event::WindowEvent { window_id, event: WindowEvent::Ime(ime) },
        ),
{
    hub.send_event(Event::WindowEvent { window_id, event: WindowEvent::Ime(ime) });
}

/// The state of a gesture recognizer as the system reports it.
#[derive(Debug, Copy, Clone, PartialEq, Eq, Hash, Structural)]
pub enum GestureState {
    Possible,
    Began,
    Changed,
    Ended,
    Cancelled,
    Failed,
}

/// The gestures that a view recognizes continuously.
#[derive(Debug, Copy, Clone, PartialEq, Eq, Hash, Structural)]
pub enum Gesture {
    Pinch,
    Rotation,
    Pan,
}

/// The phase of the gesture event for a recognizer in `state`. A gesture that begins
/// starts, one that changes moves, one that is cancelled or fails is cancelled. A
/// rotation or a pan that ends has ended; a pinch that ends reports its last change as
/// one more move. A recognizer that has recognized nothing yet has no event.
pub open spec fn spec_gesture_phase(gesture: Gesture, state: GestureState) -> Option<TouchPhase> {
    match state {
        GestureState::Possible => None,
        GestureState::Began => Some(TouchPhase::Started),
        GestureState::Changed => Some(TouchPhase::Moved),
        GestureState::Ended => match gesture {
            Gesture::Pinch => Some(TouchPhase::Moved),
            _ => Some(TouchPhase::Ended),
        },
        GestureState::Cancelled => Some(TouchPhase::Cancelled),
        GestureState::Failed => Some(TouchPhase::Cancelled),
    }
}

#[verifier::when_used_as_spec(spec_gesture_phase)]
pub fn gesture_phase(gesture: Gesture, state: GestureState) -> (phase: Option<TouchPhase>)
    ensures
        phase == spec_gesture_phase(gesture, state),
{
    match state {
        GestureState::Possible => None,
        GestureState::Began => Some(TouchPhase::Started),
        GestureState::Changed => Some(TouchPhase::Moved),
        GestureState::Ended => match gesture {
            Gesture::Pinch => Some(TouchPhase::Moved),
            _ => Some(TouchPhase::Ended),
        },
        GestureState::Cancelled => Some(TouchPhase::Cancelled),
        GestureState::Failed => Some(TouchPhase::Cancelled),
    }
}

/// Enqueues the double-tap event of `window_id` when the recognizer has ended, and
/// nothing in any other state.
pub fn double_tap_gesture(hub: &mut EventHub, window_id: WindowId, state: GestureState)
    ensures
        state == GestureState::Ended ==> final(hub)@ == old(hub)@.push(
            Event::WindowEvent {
                window_id,
                event: WindowEvent::DoubleTapGesture { device_id: DeviceId },
            },
        ),
        state != GestureState::Ended ==> final(hub)@ == old(hub)@,
{
    match state {
        GestureState::Ended => {
            hub.send_event(
                Event::WindowEvent {
                    window_id,
                    event: WindowEvent::DoubleTapGesture { device_id: DeviceId },
                },
            );
        },
        _ => {},
    }
}

} // verus!
