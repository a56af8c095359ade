use deft_winit::cursor::{Cursor, CursorIcon};
use deft_winit::error::{ExternalError, NotSupportedError};
use deft_winit::event::{DeviceId, Event, WindowEvent};
use deft_winit::event_hub::EventHub;
use deft_winit::event_loop::ActiveEventLoop;
use deft_winit::geometry::{F64Bits, LogicalPosition, LogicalSize, PhysicalPosition, PhysicalSize, Position, Size};
use deft_winit::monitor::{Fullscreen, MonitorHandle, VideoModeHandle};
use deft_winit::window::{
    CursorGrabMode, Icon, ImePurpose, PlatformSpecificWindowAttributes,
    PlatformSpecificWindowBuilderAttributes, ResizeDirection, Theme, UserAttentionType, Window,
    WindowAttributes, WindowButtons, WindowId, WindowLevel, WINDOW_BUTTON_CLOSE,
    WINDOW_BUTTON_MAXIMIZE, WINDOW_BUTTON_MINIMIZE,
};
use deft_winit::window_target::OwnedDisplayHandle;
use raw_window_handle::{HandleError, RawDisplayHandle};

fn new_window(hub: &mut EventHub) -> Window {
    let target = ActiveEventLoop::new();
    Window::new(&target, WindowAttributes::default(), hub, PhysicalSize::new(1280, 720)).unwrap()
}

#[test]
fn window_ids_are_numbers() {
    assert_eq!(WindowId::dummy(), WindowId(0));
    assert_eq!(u64::from(WindowId(17)), 17);
    assert_eq!(WindowId::from(17u64), WindowId(17));
    let raw: u64 = WindowId(usize::MAX).into();
    assert_eq!(raw, usize::MAX as u64);
    let id: WindowId = 5u64.into();
    assert_eq!(id, WindowId(5));
    assert_eq!(DeviceId::dummy(), DeviceId);
}

#[test]
fn default_attributes() {
    let attributes = WindowAttributes::default();
    assert_eq!(attributes.title, "winit window");
    assert_eq!(attributes.inner_size, None);
    assert!(attributes.visible);
    assert!(attributes.resizable);
    assert!(attributes.decorations);
    assert_eq!(
        attributes.platform_specific,
        PlatformSpecificWindowAttributes { prevent_default: false, focusable: false, append: false }
    );
    assert_eq!(
        PlatformSpecificWindowBuilderAttributes::default(),
        PlatformSpecificWindowBuilderAttributes
    );
}

#[test]
fn a_new_window_tells_its_size() {
    let mut hub = EventHub::new();
    let window = new_window(&mut hub);
    assert_eq!(window.inner().id(), WindowId(0));
    let drained: Vec<Event<()>> = hub.poll_events();
    assert_eq!(
        drained,
        vec![Event::WindowEvent {
            window_id: WindowId(0),
            event: WindowEvent::Resized(PhysicalSize { width: 1280, height: 720 }),
        }]
    );
}

#[test]
fn a_redraw_request_is_an_event() {
    let mut hub = EventHub::new();
    let window = new_window(&mut hub);
    hub.pop_event();
    window.inner().request_redraw(&mut hub);
    window.inner().request_redraw(&mut hub);
    let redraw = Event::WindowEvent { window_id: WindowId(0), event: WindowEvent::RedrawRequested };
    assert_eq!(hub.poll_events::<()>(), vec![redraw.clone(), redraw]);
}

#[test]
fn what_the_page_answers() {
    let mut hub = EventHub::new();
    let window = new_window(&mut hub);
    let inner = window.inner();
    assert_eq!(inner.is_visible(), None);
    assert!(inner.is_resizable());
    assert_eq!(inner.enabled_buttons(), WindowButtons::all());
    assert_eq!(
        WindowButtons::all().bits,
        WINDOW_BUTTON_CLOSE | WINDOW_BUTTON_MINIMIZE | WINDOW_BUTTON_MAXIMIZE
    );
    assert_eq!(inner.is_minimized(), Some(false));
    assert!(!inner.is_maximized());
    assert_eq!(inner.fullscreen(), None);
    assert!(inner.is_decorated());
    assert_eq!(inner.current_monitor(), None);
    assert_eq!(inner.primary_monitor(), None);
    assert!(inner.available_monitors().is_empty());
    assert_eq!(inner.theme(), None);
    assert!(inner.has_focus());
    assert_eq!(inner.title(), "");
    assert_eq!(inner.outer_position(), Err(NotSupportedError::new()));
    assert_eq!(inner.inner_position(), Err(NotSupportedError::new()));
    assert_eq!(inner.resize_increments(), None);
    let size = Size::Physical(PhysicalSize::new(10, 10));
    assert_eq!(inner.request_inner_size(size), None);
    assert!(!window.prevent_default());
}

#[test]
fn what_the_page_cannot_do() {
    let mut hub = EventHub::new();
    let window = new_window(&mut hub);
    let inner = window.inner();
    let not_supported = Err(ExternalError::NotSupported(NotSupportedError::new()));
    let position = Position::Physical(PhysicalPosition::new(1, 2));
    assert_eq!(inner.set_cursor_position(position), not_supported);
    assert_eq!(inner.set_cursor_grab(CursorGrabMode::Confined), not_supported);
    assert_eq!(inner.set_cursor_grab(CursorGrabMode::NoGrab), not_supported);
    assert_eq!(inner.drag_window(), not_supported);
    assert_eq!(inner.drag_resize_window(ResizeDirection::East), not_supported);
    assert_eq!(inner.set_cursor_hittest(true), not_supported);
}

#[test]
fn requests_that_leave_the_page_as_it_is() {
    let mut hub = EventHub::new();
    let window = new_window(&mut hub);
    hub.pop_event();
    let inner = window.inner();
    let logical = Position::Logical(LogicalPosition::new(F64Bits { bits: 0 }, F64Bits { bits: 0 }));
    let size = Size::Logical(LogicalSize::new(F64Bits { bits: 0 }, F64Bits { bits: 0 }));
    inner.set_title("a title");
    inner.set_transparent(true);
    inner.set_blur(true);
    inner.set_visible(false);
    inner.pre_present_notify();
    inner.set_outer_position(logical);
    inner.set_min_inner_size(Some(size));
    inner.set_max_inner_size(None);
    inner.set_resize_increments(Some(size));
    inner.set_resizable(false);
    inner.set_enabled_buttons(WindowButtons { bits: WINDOW_BUTTON_CLOSE });
    inner.set_cursor(Cursor::Icon(CursorIcon::Pointer));
    inner.set_cursor_visible(false);
    inner.show_window_menu(logical);
    inner.set_minimized(true);
    inner.set_maximized(true);
    inner.set_fullscreen(Some(Fullscreen::Borderless(None)));
    inner.set_fullscreen(Some(Fullscreen::Exclusive(VideoModeHandle)));
    inner.set_fullscreen(Some(Fullscreen::Borderless(Some(MonitorHandle))));
    inner.set_decorations(false);
    inner.set_window_level(WindowLevel::AlwaysOnTop);
    inner.set_window_icon(Some(Icon {}));
    inner.set_ime_cursor_area(logical, size);
    inner.set_ime_allowed(true);
    inner.set_ime_purpose(ImePurpose::Password);
    inner.focus_window();
    inner.request_user_attention(Some(UserAttentionType::Critical));
    inner.set_theme(Some(Theme::Dark));
    inner.set_content_protected(true);
    inner.reset_dead_keys();
    window.set_prevent_default(true);
    assert!(!window.prevent_default());
    assert!(inner.is_resizable());
    assert_eq!(inner.is_minimized(), Some(false));
    assert!(!inner.is_maximized());
    assert_eq!(inner.fullscreen(), None);
    assert!(inner.is_decorated());
    assert_eq!(inner.title(), "");
    assert_eq!(inner.theme(), None);
    assert!(hub.is_empty());
}

#[test]
fn closures_run_on_the_window_at_once() {
    let mut hub = EventHub::new();
    let window = new_window(&mut hub);
    assert_eq!(window.maybe_wait_on_main(|inner| inner.id()), WindowId(0));
    assert_eq!(window.maybe_wait_on_main(|inner| inner.is_minimized()), Some(false));
    let (sender, receiver) = std::sync::mpsc::channel();
    window.maybe_queue_on_main(move |inner| sender.send(inner.has_focus()).unwrap());
    assert_eq!(receiver.try_recv(), Ok(true));
}

#[test]
fn raw_handles() {
    let mut hub = EventHub::new();
    let window = new_window(&mut hub);
    assert!(matches!(window.raw_window_handle_rwh_06(), Err(HandleError::Unavailable)));
    assert!(matches!(window.raw_display_handle_rwh_06(), Ok(RawDisplayHandle::Web(_))));
    let target = ActiveEventLoop::new();
    assert!(matches!(target.raw_display_handle_rwh_06(), Ok(RawDisplayHandle::Web(_))));
    let owned: OwnedDisplayHandle = target.owned_display_handle();
    assert!(matches!(owned.raw_display_handle_rwh_06(), Ok(RawDisplayHandle::Web(_))));
}
