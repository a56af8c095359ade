use deft_winit::emscripten::{
    em_try, error_to_str, keyboard_callback, mouse_button, mouse_callback, registration_error,
    window_resize_callback, winit_emscripten_send_input, MouseReport, EMSCRIPTEN_EVENT_KEYDOWN,
    EMSCRIPTEN_EVENT_KEYUP, EMSCRIPTEN_EVENT_MOUSEDOWN, EMSCRIPTEN_EVENT_MOUSEMOVE,
    EMSCRIPTEN_EVENT_MOUSEUP, EMSCRIPTEN_RESULT_DEFERRED, EMSCRIPTEN_RESULT_FAILED,
    EMSCRIPTEN_RESULT_FAILED_NOT_DEFERRED, EMSCRIPTEN_RESULT_INVALID_PARAM,
    EMSCRIPTEN_RESULT_INVALID_TARGET, EMSCRIPTEN_RESULT_NOT_SUPPORTED,
    EMSCRIPTEN_RESULT_NO_DATA, EMSCRIPTEN_RESULT_SUCCESS, EMSCRIPTEN_RESULT_UNKNOWN_TARGET,
};
use deft_winit::error::OsError;
use deft_winit::event::{
    DeviceEvent, DeviceId, ElementState, Event, Ime, KeyEvent, KeyEventExtra, MouseButton,
    WindowEvent,
};
use deft_winit::event_hub::EventHub;
use deft_winit::geometry::{F64Bits, PhysicalPosition, PhysicalSize};
use deft_winit::keyboard::{Key, KeyCode, KeyLocation, NamedKey, NativeKeyCode, PhysicalKey};
use deft_winit::window::WindowId;
use smol_str::SmolStr;

fn report(button: u16) -> MouseReport {
    MouseReport {
        position: PhysicalPosition {
            x: F64Bits { bits: 12.5f64.to_bits() },
            y: F64Bits { bits: 40.0f64.to_bits() },
        },
        movement_x: F64Bits { bits: (-3.0f64).to_bits() },
        movement_y: F64Bits { bits: 4.0f64.to_bits() },
        button,
    }
}

fn drain(hub: &mut EventHub) -> Vec<Event<()>> {
    hub.poll_events()
}

#[test]
fn success_codes_are_ok() {
    assert_eq!(em_try(EMSCRIPTEN_RESULT_SUCCESS), Ok(()));
    assert_eq!(em_try(EMSCRIPTEN_RESULT_DEFERRED), Ok(()));
    assert_eq!(em_try(0), Ok(()));
    assert_eq!(em_try(1), Ok(()));
}

#[test]
fn failure_codes_carry_their_message() {
    assert_eq!(em_try(EMSCRIPTEN_RESULT_NOT_SUPPORTED), Err("Not supported".to_string()));
    assert_eq!(
        em_try(EMSCRIPTEN_RESULT_FAILED_NOT_DEFERRED),
        Err("Failed not deferred".to_string())
    );
    assert_eq!(em_try(EMSCRIPTEN_RESULT_INVALID_TARGET), Err("Invalid target".to_string()));
    assert_eq!(em_try(EMSCRIPTEN_RESULT_UNKNOWN_TARGET), Err("Unknown target".to_string()));
    assert_eq!(em_try(EMSCRIPTEN_RESULT_INVALID_PARAM), Err("Invalid parameter".to_string()));
    assert_eq!(em_try(EMSCRIPTEN_RESULT_FAILED), Err("Failed".to_string()));
    assert_eq!(em_try(EMSCRIPTEN_RESULT_NO_DATA), Err("No data".to_string()));
    assert_eq!(em_try(-8), Err("Undocumented error".to_string()));
    assert_eq!(em_try(2), Err("Undocumented error".to_string()));
    assert_eq!(em_try(i32::MIN), Err("Undocumented error".to_string()));
}

#[test]
fn every_code_has_a_message() {
    assert_eq!(error_to_str(0), "Internal error in the library (success detected as failure)");
    assert_eq!(error_to_str(1), "Internal error in the library (success detected as failure)");
    assert_eq!(error_to_str(-1), "Not supported");
    assert_eq!(error_to_str(-2), "Failed not deferred");
    assert_eq!(error_to_str(-3), "Invalid target");
    assert_eq!(error_to_str(-4), "Unknown target");
    assert_eq!(error_to_str(-5), "Invalid parameter");
    assert_eq!(error_to_str(-6), "Failed");
    assert_eq!(error_to_str(-7), "No data");
    assert_eq!(error_to_str(-100), "Undocumented error");
    assert_eq!(error_to_str(77), "Undocumented error");
}

#[test]
fn a_refused_registration_names_the_runtime() {
    assert_eq!(
        registration_error("Unknown target"),
        OsError("emscripten error: Unknown target".to_string())
    );
    assert_eq!(registration_error(""), OsError("emscripten error: ".to_string()));
    assert_eq!(registration_error("x").to_string(), "emscripten error: x");
}

#[test]
fn button_numbers_name_buttons() {
    assert_eq!(mouse_button(0), MouseButton::Left);
    assert_eq!(mouse_button(1), MouseButton::Middle);
    assert_eq!(mouse_button(2), MouseButton::Right);
    assert_eq!(mouse_button(3), MouseButton::Other(3));
    assert_eq!(mouse_button(u16::MAX), MouseButton::Other(u16::MAX));
}

#[test]
fn a_mouse_move_is_a_cursor_event_and_a_motion_event() {
    let mut hub = EventHub::new();
    assert!(!mouse_callback(&mut hub, EMSCRIPTEN_EVENT_MOUSEMOVE, &report(0)));
    assert_eq!(
        drain(&mut hub),
        vec![
            Event::WindowEvent {
                window_id: WindowId(0),
                event: WindowEvent::CursorMoved {
                    device_id: DeviceId,
                    position: report(0).position,
                    root_position: report(0).position,
                },
            },
            Event::DeviceEvent {
                device_id: DeviceId,
                event: DeviceEvent::MouseMotion {
                    delta_x: F64Bits { bits: (-3.0f64).to_bits() },
                    delta_y: F64Bits { bits: 4.0f64.to_bits() },
                },
            },
        ]
    );
}

#[test]
fn a_button_going_down_or_up_is_one_input_event() {
    let mut hub = EventHub::new();
    assert!(!mouse_callback(&mut hub, EMSCRIPTEN_EVENT_MOUSEDOWN, &report(2)));
    assert!(!mouse_callback(&mut hub, EMSCRIPTEN_EVENT_MOUSEUP, &report(5)));
    assert_eq!(
        drain(&mut hub),
        vec![
            Event::WindowEvent {
                window_id: WindowId(0),
                event: WindowEvent::MouseInput {
                    device_id: DeviceId,
                    state: ElementState::Pressed,
                    button: MouseButton::Right,
                },
            },
            Event::WindowEvent {
                window_id: WindowId(0),
                event: WindowEvent::MouseInput {
                    device_id: DeviceId,
                    state: ElementState::Released,
                    button: MouseButton::Other(5),
                },
            },
        ]
    );
}

#[test]
fn other_mouse_reports_enqueue_nothing() {
    let mut hub = EventHub::new();
    assert!(!mouse_callback(&mut hub, 4, &report(0)));
    assert!(!mouse_callback(&mut hub, 7, &report(0)));
    assert!(!mouse_callback(&mut hub, -1, &report(0)));
    assert!(hub.is_empty());
}

#[test]
fn a_resize_is_one_event() {
    let mut hub = EventHub::new();
    assert!(!window_resize_callback(&mut hub, PhysicalSize::new(800, 600)));
    assert_eq!(
        drain(&mut hub),
        vec![Event::WindowEvent {
            window_id: WindowId(0),
            event: WindowEvent::Resized(PhysicalSize { width: 800, height: 600 }),
        }]
    );
}

#[test]
fn sent_input_is_committed_text() {
    let mut hub = EventHub::new();
    winit_emscripten_send_input(&mut hub, "héllo".to_string());
    assert_eq!(
        drain(&mut hub),
        vec![Event::WindowEvent {
            window_id: WindowId(0),
            event: WindowEvent::Ime(Ime::Commit("héllo".to_string())),
        }]
    );
}

fn key_event(
    physical_key: PhysicalKey,
    logical_key: Key,
    text: Option<&str>,
    state: ElementState,
) -> Event<()> {
    Event::WindowEvent {
        window_id: WindowId(0),
        event: WindowEvent::KeyboardInput {
            device_id: DeviceId,
            event: KeyEvent {
                physical_key,
                logical_key,
                text: text.map(SmolStr::new),
                location: KeyLocation::Standard,
                state,
                repeat: false,
                platform_specific: KeyEventExtra,
            },
            is_synthetic: false,
        },
    }
}

#[test]
fn a_key_going_down_or_up_is_a_keyboard_event() {
    let mut hub = EventHub::new();
    assert!(!keyboard_callback(&mut hub, EMSCRIPTEN_EVENT_KEYDOWN, "KeyA", "a"));
    assert!(!keyboard_callback(&mut hub, EMSCRIPTEN_EVENT_KEYUP, "Enter", "Enter"));
    assert!(!keyboard_callback(&mut hub, EMSCRIPTEN_EVENT_KEYDOWN, "Escape", "Escape"));
    assert!(!keyboard_callback(&mut hub, EMSCRIPTEN_EVENT_KEYDOWN, "Space", " "));
    assert!(!keyboard_callback(&mut hub, EMSCRIPTEN_EVENT_KEYUP, "Quote", "Dead"));
    assert_eq!(
        drain(&mut hub),
        vec![
            key_event(
                PhysicalKey::Unidentified(NativeKeyCode::Unidentified),
                Key::Character(SmolStr::new("a")),
                Some("a"),
                ElementState::Pressed
            ),
            key_event(
                PhysicalKey::Code(KeyCode::Enter),
                Key::Named(NamedKey::Enter),
                Some("\r"),
                ElementState::Released
            ),
            key_event(
                PhysicalKey::Code(KeyCode::Escape),
                Key::Named(NamedKey::Escape),
                None,
                ElementState::Pressed
            ),
            key_event(
                PhysicalKey::Code(KeyCode::Space),
                Key::Named(NamedKey::Space),
                Some(" "),
                ElementState::Pressed
            ),
            key_event(
                PhysicalKey::Unidentified(NativeKeyCode::Unidentified),
                Key::Dead(None),
                None,
                ElementState::Released
            ),
        ]
    );
}

#[test]
fn other_key_reports_enqueue_nothing() {
    let mut hub = EventHub::new();
    assert!(!keyboard_callback(&mut hub, 1, "Tab", "Tab"));
    assert!(!keyboard_callback(&mut hub, EMSCRIPTEN_EVENT_MOUSEDOWN, "Tab", "Tab"));
    assert!(hub.is_empty());
}
