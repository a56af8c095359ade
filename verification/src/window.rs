//! Windows and their identifiers.
//!
//! The browser shows one page, and a window stands for it. Most of what a desktop window
//! can be asked leaves the page as it is; each method says what it answers.

use crate::cursor::Cursor;
use crate::error::{ExternalError, NotSupportedError, OsError};
use crate::event::{Event, WindowEvent};
use crate::event_hub::EventHub;
use crate::event_loop::ActiveEventLoop;
use crate::geometry::{PhysicalPosition, PhysicalSize, Position, Size};
use crate::monitor::{Fullscreen, MonitorHandle};
use crate::window_target::{handle_unavailable, web_display_handle};
use raw_window_handle::{HandleError, RawDisplayHandle, RawWindowHandle};
use std::collections::VecDeque;
use vstd::prelude::*;
use vstd::std_specs::convert::FromSpecImpl;

pub use crate::cursor::{CustomCursor, CustomCursorSource};

verus! {

/// Identifies a window for as long as the window lives.
#[derive(Debug, Copy, Clone, PartialEq, Eq, PartialOrd, Ord, Hash, Structural)]
pub struct WindowId(pub usize);

impl WindowId {
    /// An identifier that names no particular window.
    pub fn dummy() -> (id: WindowId)
        ensures
            id == WindowId(0),
    {
        WindowId(0)
    }
}

impl From<WindowId> for u64 {
    fn from(id: WindowId) -> (raw: u64) {
        id.0 as u64
    }
}

impl FromSpecImpl<WindowId> for u64 {
    open spec fn obeys_from_spec() -> bool {
        true
    }

    open spec fn from_spec(id: WindowId) -> u64 {
        id.0 as u64
    }
}

impl From<u64> for WindowId {
    fn from(raw: u64) -> (id: WindowId) {
        WindowId(raw as usize)
    }
}

impl FromSpecImpl<u64> for WindowId {
    open spec fn obeys_from_spec() -> bool {
        true
    }

    open spec fn from_spec(raw: u64) -> WindowId {
        WindowId(raw as usize)
    }
}

/// What only this platform lets an application ask of a new window.
#[derive(Clone, Copy, Debug, PartialEq, Eq, Structural)]
pub struct PlatformSpecificWindowAttributes {
    pub prevent_default: bool,
    pub focusable: bool,
    pub append: bool,
}

impl Default for PlatformSpecificWindowAttributes {
    fn default() -> (attributes: PlatformSpecificWindowAttributes)
        ensures
            !attributes.prevent_default,
            !attributes.focusable,
            !attributes.append,
    {
        PlatformSpecificWindowAttributes { prevent_default: false, focusable: false, append: false }
    }
}

/// What only this platform lets a window builder hold: nothing.
#[derive(Clone, Copy, Debug, PartialEq, Eq, Structural)]
pub struct PlatformSpecificWindowBuilderAttributes;

impl Default for PlatformSpecificWindowBuilderAttributes {
    fn default() -> (attributes: PlatformSpecificWindowBuilderAttributes) {
        PlatformSpecificWindowBuilderAttributes
    }
}

/// What an application asks of a new window.
#[derive(Clone, Debug, PartialEq, Eq)]
pub struct WindowAttributes {
    pub title: String,
    pub inner_size: Option<Size>,
    pub visible: bool,
    pub resizable: bool,
    pub decorations: bool,
    pub platform_specific: PlatformSpecificWindowAttributes,
}

impl Default for WindowAttributes {
    fn default() -> (attributes: WindowAttributes)
        ensures
            attributes.title@ == "winit window"@,
            attributes.inner_size is None,
            attributes.visible,
            attributes.resizable,
            attributes.decorations,
    {
        WindowAttributes {
            title: "winit window".to_owned(),
            inner_size: None,
            visible: true,
            resizable: true,
            decorations: true,
            platform_specific: PlatformSpecificWindowAttributes::default(),
        }
    }
}

/// The buttons in the frame of a window, as a set.
#[derive(Clone, Copy, Debug, PartialEq, Eq, Hash, Structural)]
pub struct WindowButtons {
    pub bits: u32,
}

pub const WINDOW_BUTTON_CLOSE: u32 = 1;

pub const WINDOW_BUTTON_MINIMIZE: u32 = 2;

pub const WINDOW_BUTTON_MAXIMIZE: u32 = 4;

impl WindowButtons {
    /// Every button there is.
    pub fn all() -> (buttons: WindowButtons)
        ensures
            buttons.bits == 7,
    {
        WindowButtons { bits: 7 }
    }
}

#[derive(Clone, Copy, Debug, PartialEq, Eq, Hash, Structural)]
pub enum CursorGrabMode {
    NoGrab,
    Confined,
    Locked,
}

#[derive(Clone, Copy, Debug, PartialEq, Eq, Hash, Structural)]
pub enum ResizeDirection {
    East,
    North,
    NorthEast,
    NorthWest,
    South,
    SouthEast,
    SouthWest,
    West,
}

#[derive(Clone, Copy, Debug, PartialEq, Eq, Hash, Structural)]
pub enum WindowLevel {
    AlwaysOnBottom,
    Normal,
    AlwaysOnTop,
}

#[derive(Clone, Copy, Debug, PartialEq, Eq, Hash, Structural)]
pub enum ImePurpose {
    Normal,
    Password,
    Terminal,
}

#[derive(Clone, Copy, Debug, PartialEq, Eq, Hash, Structural)]
pub enum UserAttentionType {
    Critical,
    Informational,
}

#[derive(Clone, Copy, Debug, PartialEq, Eq, Hash, Structural)]
pub enum Theme {
    Light,
    Dark,
}

/// The icon of a window. The page has none.
#[derive(Clone, Copy, Debug, PartialEq, Eq, Structural)]
pub struct Icon {}

/// The event that asks `window_id` to draw itself.
pub open spec fn redraw_requested(window_id: WindowId) -> Event<()> {
    Event::WindowEvent { window_id, event: WindowEvent::RedrawRequested }
}

/// The event for the size in which a window starts.
pub open spec fn first_resize(size: PhysicalSize<u32>) -> Event<()> {
    Event::WindowEvent { window_id: WindowId(0), event: WindowEvent::Resized(size) }
}

/// The window as the platform holds it.
pub struct Inner {
    id: WindowId,
}

/// A window.
pub struct Window {
    inner: Inner,
}

impl Window {
    /// This window as the platform holds it.
    pub closed spec fn spec_inner(&self) -> Inner {
        self.inner
    }

    /// Makes the window for the page, whose size is `size`, and enqueues the event that
    /// tells the application of that size.
    pub fn new(
        _active_event_loop: &ActiveEventLoop,
        _attribs: WindowAttributes,
        hub: &mut EventHub,
        size: PhysicalSize<u32>,
    ) -> (r: Result<Window, OsError>)
        ensures
            r matches Ok(window) && window.spec_inner().spec_id() == WindowId(0),
            final(hub)@ == old(hub)@.push(first_resize(size)),
    {
        let window = Window { inner: Inner { id: WindowId::dummy() } };
        hub.send_event(
            Event::WindowEvent { window_id: WindowId(0), event: WindowEvent::Resized(size) },
        );
        Ok(window)
    }

    /// This window as the platform holds it.
    pub fn inner(&self) -> (inner: &Inner)
        ensures
            *inner == self.spec_inner(),
    {
        &self.inner
    }

    /// Runs `f` on the window at once: the consumer's thread is the main thread.
    pub fn maybe_queue_on_main<F: FnOnce(&Inner) + Send + 'static>(&self, f: F)
        requires
            f.requires((&self.spec_inner(),)),
        ensures
            f.ensures((&self.spec_inner(),), ()),
    {
        f(&self.inner);
    }

    /// Runs `f` on the window at once and hands back what it returns.
    pub fn maybe_wait_on_main<R: Send, F: FnOnce(&Inner) -> R + Send>(&self, f: F) -> (r: R)
        requires
            f.requires((&self.spec_inner(),)),
        ensures
            f.ensures((&self.spec_inner(),), r),
    {
        f(&self.inner)
    }

    /// Whether the page keeps the browser from handling input itself: it does not.
    pub fn prevent_default(&self) -> (prevented: bool)
        ensures
            !prevented,
    {
        false
    }

    /// Leaves the page as it is.
    pub fn set_prevent_default(&self, _prevent_default: bool) {
    }

    /// There is no raw handle for the page.
    pub fn raw_window_handle_rwh_06(&self) -> (r: Result<RawWindowHandle, HandleError>)
        ensures
            r is Err,
    {
        Err(handle_unavailable())
    }

    /// The raw display handle of the web, which holds nothing.
    pub fn raw_display_handle_rwh_06(&self) -> (r: Result<RawDisplayHandle, HandleError>)
        ensures
            r is Ok,
    {
        Ok(web_display_handle())
    }
}

impl Inner {
    /// The identifier of the window.
    pub closed spec fn spec_id(&self) -> WindowId {
        self.id
    }

    /// Leaves the page as it is.
    pub fn set_title(&self, _title: &str) {
    }

    /// Leaves the page as it is.
    pub fn set_transparent(&self, _transparent: bool) {
    }

    /// Leaves the page as it is.
    pub fn set_blur(&self, _blur: bool) {
    }

    /// Leaves the page as it is.
    pub fn set_visible(&self, _visible: bool) {
    }

    /// Whether the window is visible is not known.
    pub fn is_visible(&self) -> (visible: Option<bool>)
        ensures
            visible is None,
    {
        None
    }

    /// Enqueues the event that asks this window to draw itself.
    pub fn request_redraw(&self, hub: &mut EventHub)
        ensures
            final(hub)@ == old(hub)@.push(redraw_requested(self.spec_id())),
    {
        hub.send_event(
            Event::WindowEvent { window_id: self.id, event: WindowEvent::RedrawRequested },
        );
    }

    /// Leaves the page as it is.
    pub fn pre_present_notify(&self) {
    }

    /// The page has no position on the screen.
    pub fn outer_position(&self) -> (r: Result<PhysicalPosition<i32>, NotSupportedError>)
        ensures
            r is Err,
    {
        Err(NotSupportedError::new())
    }

    /// The page has no frame, so this is its outer position.
    pub fn inner_position(&self) -> (r: Result<PhysicalPosition<i32>, NotSupportedError>)
        ensures
            r is Err,
    {
        self.outer_position()
    }

    /// Leaves the page as it is.
    pub fn set_outer_position(&self, _position: Position) {
    }

    /// The page cannot be resized on request.
    pub fn request_inner_size(&self, _size: Size) -> (granted: Option<PhysicalSize<u32>>)
        ensures
            granted is None,
    {
        None
    }

    /// Leaves the page as it is.
    pub fn set_min_inner_size(&self, _dimensions: Option<Size>) {
    }

    /// Leaves the page as it is.
    pub fn set_max_inner_size(&self, _dimensions: Option<Size>) {
    }

    /// The page resizes in no fixed steps.
    pub fn resize_increments(&self) -> (increments: Option<PhysicalSize<u32>>)
        ensures
            increments is None,
    {
        None
    }

    /// Leaves the page as it is: its user cannot resize it.
    pub fn set_resize_increments(&self, _increments: Option<Size>) {
    }

    /// Leaves the page as it is: its user cannot resize it.
    pub fn set_resizable(&self, _resizable: bool) {
    }

    pub fn is_resizable(&self) -> (resizable: bool)
        ensures
            resizable,
    {
        true
    }

    /// Leaves the page as it is.
    pub fn set_enabled_buttons(&self, _buttons: WindowButtons) {
    }

    /// Every button counts as enabled.
    pub fn enabled_buttons(&self) -> (buttons: WindowButtons)
        ensures
            buttons.bits == 7,
    {
        WindowButtons::all()
    }

    /// Leaves the page as it is.
    pub fn set_cursor(&self, _cursor: Cursor) {
    }

    /// The page cannot move the cursor.
    pub fn set_cursor_position(&self, _position: Position) -> (r: Result<(), ExternalError>)
        ensures
            r == Err::<(), ExternalError>(ExternalError::NotSupported(NotSupportedError {  })),
    {
        Err(ExternalError::NotSupported(NotSupportedError::new()))
    }

    /// The page cannot grab the cursor.
    pub fn set_cursor_grab(&self, _mode: CursorGrabMode) -> (r: Result<(), ExternalError>)
        ensures
            r == Err::<(), ExternalError>(ExternalError::NotSupported(NotSupportedError {  })),
    {
        Err(ExternalError::NotSupported(NotSupportedError::new()))
    }

    /// Leaves the page as it is.
    pub fn set_cursor_visible(&self, _visible: bool) {
    }

    /// The page cannot be dragged.
    pub fn drag_window(&self) -> (r: Result<(), ExternalError>)
        ensures
            r == Err::<(), ExternalError>(ExternalError::NotSupported(NotSupportedError {  })),
    {
        Err(ExternalError::NotSupported(NotSupportedError::new()))
    }

    /// The page cannot be resized by dragging.
    pub fn drag_resize_window(&self, _direction: ResizeDirection) -> (r: Result<
        (),
        ExternalError,
    >)
        ensures
            r == Err::<(), ExternalError>(ExternalError::NotSupported(NotSupportedError {  })),
    {
        Err(ExternalError::NotSupported(NotSupportedError::new()))
    }

    /// Leaves the page as it is.
    pub fn show_window_menu(&self, _position: Position) {
    }

    /// The page always takes the cursor's hits.
    pub fn set_cursor_hittest(&self, _hittest: bool) -> (r: Result<(), ExternalError>)
        ensures
            r == Err::<(), ExternalError>(ExternalError::NotSupported(NotSupportedError {  })),
    {
        Err(ExternalError::NotSupported(NotSupportedError::new()))
    }

    /// Leaves the page as it is: it cannot be minimized.
    pub fn set_minimized(&self, _minimized: bool) {
    }

    pub fn is_minimized(&self) -> (minimized: Option<bool>)
        ensures
            minimized == Some(false),
    {
        Some(false)
    }

    /// Leaves the page as it is: it cannot be maximized.
    pub fn set_maximized(&self, _maximized: bool) {
    }

    pub fn is_maximized(&self) -> (maximized: bool)
        ensures
            !maximized,
    {
        false
    }

    /// The page never fills the screen.
    pub fn fullscreen(&self) -> (fullscreen: Option<Fullscreen>)
        ensures
            fullscreen is None,
    {
        None
    }

    /// Leaves the page as it is.
    pub fn set_fullscreen(&self, _fullscreen: Option<Fullscreen>) {
    }

    /// Leaves the page as it is: it has no decorations.
    pub fn set_decorations(&self, _decorations: bool) {
    }

    pub fn is_decorated(&self) -> (decorated: bool)
        ensures
            decorated,
    {
        true
    }

    /// Leaves the page as it is: windows are not ordered.
    pub fn set_window_level(&self, _level: WindowLevel) {
    }

    /// Leaves the page as it is.
    pub fn set_window_icon(&self, _window_icon: Option<Icon>) {
    }

    /// Leaves the page as it is.
    pub fn set_ime_cursor_area(&self, _position: Position, _size: Size) {
    }

    /// Leaves the page as it is.
    pub fn set_ime_allowed(&self, _allowed: bool) {
    }

    /// Leaves the page as it is.
    pub fn set_ime_purpose(&self, _purpose: ImePurpose) {
    }

    /// Leaves the page as it is.
    pub fn focus_window(&self) {
    }

    /// Leaves the page as it is.
    pub fn request_user_attention(&self, _request_type: Option<UserAttentionType>) {
    }

    /// The browser tells of no monitor.
    pub fn current_monitor(&self) -> (monitor: Option<MonitorHandle>)
        ensures
            monitor is None,
    {
        None
    }

    /// The browser tells of no monitor.
    pub fn available_monitors(&self) -> (monitors: VecDeque<MonitorHandle>)
        ensures
            monitors@.len() == 0,
    {
        VecDeque::new()
    }

    /// The browser tells of no monitor.
    pub fn primary_monitor(&self) -> (monitor: Option<MonitorHandle>)
        ensures
            monitor is None,
    {
        None
    }

    #[verifier::when_used_as_spec(spec_id)]
    pub fn id(&self) -> (id: WindowId)
        ensures
            id == self.spec_id(),
    {
        self.id
    }

    /// Leaves the page as it is.
    pub fn set_theme(&self, _theme: Option<Theme>) {
    }

    /// The theme of the page is not known.
    pub fn theme(&self) -> (theme: Option<Theme>)
        ensures
            theme is None,
    {
        None
    }

    /// Leaves the page as it is.
    pub fn set_content_protected(&self, _protected: bool) {
    }

    /// The page counts as focused.
    pub fn has_focus(&self) -> (focused: bool)
        ensures
            focused,
    {
        true
    }

    /// The page has no title of its own.
    pub fn title(&self) -> (title: String)
        ensures
            title@.len() == 0,
    {
        String::new()
    }

    /// Leaves the page as it is.
    pub fn reset_dead_keys(&self) {
    }
}

} // verus!
