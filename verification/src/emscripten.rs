//! The browser runtime as a producer: what its result codes mean, and which events its
//! input callbacks enqueue.

use crate::error::OsError;
use crate::event::{
    DeviceEvent, DeviceId, ElementState, Event, Ime, KeyEvent, KeyEventExtra, MouseButton,
    WindowEvent,
};
use crate::event_hub::EventHub;
use crate::geometry::{F64Bits, PhysicalPosition, PhysicalSize};
use crate::keyboard::{
    is_key_of, key_text, physical_key_of, smol_text, spec_key_text, Key, KeyLocation, PhysicalKey,
};
use crate::window::WindowId;
use smol_str::SmolStr;
use vstd::prelude::*;
use vstd::string::StringExecFns;

verus! {

pub const EMSCRIPTEN_RESULT_SUCCESS: i32 = 0;

pub const EMSCRIPTEN_RESULT_DEFERRED: i32 = 1;

pub const EMSCRIPTEN_RESULT_NOT_SUPPORTED: i32 = -1;

pub const EMSCRIPTEN_RESULT_FAILED_NOT_DEFERRED: i32 = -2;

pub const EMSCRIPTEN_RESULT_INVALID_TARGET: i32 = -3;

pub const EMSCRIPTEN_RESULT_UNKNOWN_TARGET: i32 = -4;

pub const EMSCRIPTEN_RESULT_INVALID_PARAM: i32 = -5;

pub const EMSCRIPTEN_RESULT_FAILED: i32 = -6;

pub const EMSCRIPTEN_RESULT_NO_DATA: i32 = -7;

/// Whether a result code of the browser runtime reports success, at once or deferred.
pub open spec fn is_success(code: i32) -> bool {
    code == EMSCRIPTEN_RESULT_SUCCESS || code == EMSCRIPTEN_RESULT_DEFERRED
}

/// The message for a result code of the browser runtime.
pub open spec fn error_text(code: i32) -> Seq<char> {
    if is_success(code) {
        "Internal error in the library (success detected as failure)"@
    } else if code == EMSCRIPTEN_RESULT_NOT_SUPPORTED {
        "Not supported"@
    } else if code == EMSCRIPTEN_RESULT_FAILED_NOT_DEFERRED {
        "Failed not deferred"@
    } else if code == EMSCRIPTEN_RESULT_INVALID_TARGET {
        "Invalid target"@
    } else if code == EMSCRIPTEN_RESULT_UNKNOWN_TARGET {
        "Unknown target"@
    } else if code == EMSCRIPTEN_RESULT_INVALID_PARAM {
        "Invalid parameter"@
    } else if code == EMSCRIPTEN_RESULT_FAILED {
        "Failed"@
    } else if code == EMSCRIPTEN_RESULT_NO_DATA {
        "No data"@
    } else {
        "Undocumented error"@
    }
}

/// The message for a result code of the browser runtime.
pub fn error_to_str(code: i32) -> (text: &'static str)
    ensures
        text@ == error_text(code),
{
    if code == EMSCRIPTEN_RESULT_SUCCESS || code == EMSCRIPTEN_RESULT_DEFERRED {
        "Internal error in the library (success detected as failure)"
    } else if code == EMSCRIPTEN_RESULT_NOT_SUPPORTED {
        "Not supported"
    } else if code == EMSCRIPTEN_RESULT_FAILED_NOT_DEFERRED {
        "Failed not deferred"
    } else if code == EMSCRIPTEN_RESULT_INVALID_TARGET {
        "Invalid target"
    } else if code == EMSCRIPTEN_RESULT_UNKNOWN_TARGET {
        "Unknown target"
    } else if code == EMSCRIPTEN_RESULT_INVALID_PARAM {
        "Invalid parameter"
    } else if code == EMSCRIPTEN_RESULT_FAILED {
        "Failed"
    } else if code == EMSCRIPTEN_RESULT_NO_DATA {
        "No data"
    } else {
        "Undocumented error"
    }
}

/// Turns a result code of the browser runtime into a `Result`: success, at once or
/// deferred, is `Ok`; any other code is an error with the code's message.
pub fn em_try(res: i32) -> (r: Result<(), String>)
    ensures
        is_success(res) ==> r is Ok,
        !is_success(res) ==> (r matches Err(message) && message@ == error_text(res)),
{
    if res == EMSCRIPTEN_RESULT_SUCCESS || res == EMSCRIPTEN_RESULT_DEFERRED {
        Ok(())
    } else {
        Err(error_to_str(res).to_owned())
    }
}

/// The error for a registration that the browser runtime refused with `message`.
pub fn registration_error(message: &str) -> (e: OsError)
    ensures
        e.0@ == "emscripten error: "@ + message@,
{
    let mut text = String::from_str("emscripten error: ");
    text.append(message);
    OsError(text)
}

pub const EMSCRIPTEN_EVENT_KEYDOWN: i32 = 2;

pub const EMSCRIPTEN_EVENT_KEYUP: i32 = 3;

pub const EMSCRIPTEN_EVENT_MOUSEDOWN: i32 = 5;

pub const EMSCRIPTEN_EVENT_MOUSEUP: i32 = 6;

pub const EMSCRIPTEN_EVENT_MOUSEMOVE: i32 = 8;

/// The browser shows a single window; all its events name this one.
pub open spec fn browser_window() -> WindowId {
    WindowId(0)
}

/// What the browser reports of the mouse, with the pointer's position already in
/// physical pixels.
#[derive(Debug, Copy, Clone, PartialEq, Eq, Structural)]
pub struct MouseReport {
    /// The pointer's position in the page.
    pub position: PhysicalPosition<F64Bits>,
    /// How far the pointer moved since the last report.
    pub movement_x: F64Bits,
    pub movement_y: F64Bits,
    /// The number of the button that changed.
    pub button: u16,
}

/// The button behind the browser's button number.
pub open spec fn spec_mouse_button(number: u16) -> MouseButton {
    if number == 0 {
        MouseButton::Left
    } else if number == 1 {
        MouseButton::Middle
    } else if number == 2 {
        MouseButton::Right
    } else {
        MouseButton::Other(number)
    }
}

#[verifier::when_used_as_spec(spec_mouse_button)]
pub fn mouse_button(number: u16) -> (button: MouseButton)
    ensures
        button == spec_mouse_button(number),
{
    if number == 0 {
        MouseButton::Left
    } else if number == 1 {
        MouseButton::Middle
    } else if number == 2 {
        MouseButton::Right
    } else {
        MouseButton::Other(number)
    }
}

/// The events that a mouse report of kind `event_type` stands for, in the order in
/// which they are enqueued: a move is a cursor event for the window and a motion event
/// for the device, a button going down or up is one input event, anything else is none.
pub open spec fn mouse_events(event_type: i32, report: MouseReport) -> Seq<Event<()>> {
    if event_type == EMSCRIPTEN_EVENT_MOUSEMOVE {
        seq![
            Event::WindowEvent {
                window_id: browser_window(),
                event: WindowEvent::CursorMoved {
                    device_id: DeviceId,
                    position: report.position,
                    root_position: report.position,
                },
            },
            Event::DeviceEvent {
                device_id: DeviceId,
                event: DeviceEvent::MouseMotion {
                    delta_x: report.movement_x,
                    delta_y: report.movement_y,
                },
            },
        ]
    } else if event_type == EMSCRIPTEN_EVENT_MOUSEDOWN || event_type == EMSCRIPTEN_EVENT_MOUSEUP {
        seq![
            Event::WindowEvent {
                window_id: browser_window(),
                event: WindowEvent::MouseInput {
                    device_id: DeviceId,
                    state: if event_type == EMSCRIPTEN_EVENT_MOUSEDOWN {
                        ElementState::Pressed
                    } else {
                        ElementState::Released
                    },
                    button: spec_mouse_button(report.button),
                },
            },
        ]
    } else {
        Seq::empty()
    }
}

/// Enqueues the events of a mouse report. Returns `false`: the browser goes on with its
/// own handling of the input.
pub fn mouse_callback(hub: &mut EventHub, event_type: i32, report: &MouseReport) -> (consumed:
    bool)
    ensures
        !consumed,
        final(hub)@ == old(hub)@ + mouse_events(event_type, *report),
{
    if event_type == EMSCRIPTEN_EVENT_MOUSEMOVE {
        hub.send_event(
            Event::WindowEvent {
                window_id: WindowId(0),
                event: WindowEvent::CursorMoved {
                    device_id: DeviceId,
                    position: report.position,
                    root_position: report.position,
                },
            },
        );
        hub.send_event(
            Event::DeviceEvent {
                device_id: DeviceId,
                event: DeviceEvent::MouseMotion {
                    delta_x: report.movement_x,
                    delta_y: report.movement_y,
                },
            },
        );
    } else if event_type == EMSCRIPTEN_EVENT_MOUSEDOWN || event_type == EMSCRIPTEN_EVENT_MOUSEUP {
        let button = mouse_button(report.button);
        let state = if event_type == EMSCRIPTEN_EVENT_MOUSEDOWN {
            ElementState::Pressed
        } else {
            ElementState::Released
        };
        hub.send_event(
            Event::WindowEvent {
                window_id: WindowId(0),
                event: WindowEvent::MouseInput { device_id: DeviceId, state, button },
            },
        );
    }
    assert(hub@ =~= old(hub)@ + mouse_events(event_type, *report));
    false
}

/// The event for a window whose size has become `size`.
pub open spec fn resized_event(size: PhysicalSize<u32>) -> Event<()> {
    Event::WindowEvent { window_id: browser_window(), event: WindowEvent::Resized(size) }
}

/// Enqueues the event for a window that the browser has resized to `size`. Returns
/// `false`: the browser goes on with its own handling.
pub fn window_resize_callback(hub: &mut EventHub, size: PhysicalSize<u32>) -> (consumed: bool)
    ensures
        !consumed,
        final(hub)@ == old(hub)@.push(resized_event(size)),
{
    hub.send_event(
        Event::WindowEvent { window_id: WindowId(0), event: WindowEvent::Resized(size) },
    );
    false
}

/// Enqueues `text` as committed by the input method.
pub fn winit_emscripten_send_input(hub: &mut EventHub, text: String)
    ensures
        final(hub)@ == old(hub)@.push(
            Event::WindowEvent {
                window_id: browser_window(),
                event: WindowEvent::Ime(Ime::Commit(text)),
            },
        ),
{
    hub.send_event(
        Event::WindowEvent { window_id: WindowId(0), event: WindowEvent::Ime(Ime::Commit(text)) },
    );
}

/// Whether a key report of kind `event_type` is a key going down or up.
pub open spec fn is_key_report(event_type: i32) -> bool {
    event_type == EMSCRIPTEN_EVENT_KEYDOWN || event_type == EMSCRIPTEN_EVENT_KEYUP
}

/// Whether `text` holds the characters `chars`, or neither holds any.
pub open spec fn text_is(text: Option<SmolStr>, chars: Option<Seq<char>>) -> bool {
    match (text, chars) {
        (Some(held), Some(expected)) => smol_text(held) == expected,
        (None, None) => true,
        _ => false,
    }
}

/// Whether `event` is the keyboard event of the browser's window for a key that the
/// browser calls `code` by its place and `key` by its meaning: not synthetic, not a
/// repeat, at the standard location, with the text of the logical key.
pub open spec fn is_key_event(
    event: Event<()>,
    event_type: i32,
    code: Seq<char>,
    key: Seq<char>,
) -> bool {
    &&& event matches Event::WindowEvent {
        window_id,
        event: WindowEvent::KeyboardInput { device_id, event: key_event, is_synthetic },
    }
    &&& window_id == browser_window()
    &&& !is_synthetic
    &&& key_event.physical_key == physical_key_of(code)
    &&& is_key_of(key_event.logical_key, key)
    &&& text_is(key_event.text, spec_key_text(key_event.logical_key))
    &&& key_event.location == KeyLocation::Standard
    &&& key_event.state == if event_type == EMSCRIPTEN_EVENT_KEYDOWN {
        ElementState::Pressed
    } else {
        ElementState::Released
    }
    &&& !key_event.repeat
}

/// Enqueues the keyboard event of a key report, whose attributes `code` and `key` name
/// the key; a report that is neither a key going down nor a key going up enqueues
/// nothing. Returns `false`: the browser goes on with its own handling of the key.
pub fn keyboard_callback(hub: &mut EventHub, event_type: i32, code: &str, key: &str) -> (consumed:
    bool)
    ensures
        !consumed,
        !is_key_report(event_type) ==> final(hub)@ == old(hub)@,
        is_key_report(event_type) ==> final(hub)@.len() == old(hub)@.len() + 1,
        is_key_report(event_type) ==> final(hub)@.drop_last() == old(hub)@,
        is_key_report(event_type) ==> is_key_event(final(hub)@.last(), event_type, code@, key@),
{
    let physical_key = PhysicalKey::from_key_code_attribute_value(code);
    let logical_key = Key::from_key_attribute_value(key);
    let text = key_text(&logical_key);
    let state = if event_type == EMSCRIPTEN_EVENT_KEYDOWN {
        ElementState::Pressed
    } else if event_type == EMSCRIPTEN_EVENT_KEYUP {
        ElementState::Released
    } else {
        return false;
    };
    hub.send_event(
        Event::WindowEvent {
            window_id: WindowId(0),
            event: WindowEvent::KeyboardInput {
                device_id: DeviceId,
                event: KeyEvent {
                    physical_key,
                    logical_key,
                    text,
                    location: KeyLocation::Standard,
                    state,
                    repeat: false,
                    platform_specific: KeyEventExtra,
                },
                is_synthetic: false,
            },
        },
    );
    assert(hub@.drop_last() =~= old(hub)@);
    false
}

} // verus!
