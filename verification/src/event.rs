//! The normalized events that the loop delivers to the application.

use crate::geometry::{F64Bits, PhysicalPosition, PhysicalSize};
use crate::keyboard::{Key, KeyLocation, PhysicalKey};
use crate::time::Instant;
use crate::window::WindowId;
use smol_str::SmolStr;
use vstd::prelude::*;

verus! {

/// Identifies an input device. This platform knows a single one.
#[derive(Debug, Copy, Clone, PartialEq, Eq, PartialOrd, Ord, Hash, Structural)]
pub struct DeviceId;

impl DeviceId {
    /// An identifier that names no particular device.
    pub fn dummy() -> (id: DeviceId)
        ensures
            id == DeviceId,
    {
        DeviceId
    }
}

/// Why an iteration of the loop began.
#[derive(Debug, Copy, Clone, PartialEq, Eq, Structural)]
#[allow(inconsistent_fields)]
pub enum StartCause {
    /// The deadline of a timed wait was reached.
    ResumeTimeReached { start: Instant, requested_resume: Instant },
    /// A producer's event ended a wait before its natural end.
    WaitCancelled { start: Instant, requested_resume: Option<Instant> },
    /// The loop was polling.
    Poll,
    /// This is the first iteration.
    Init,
}

#[derive(Debug, Copy, Clone, PartialEq, Eq, Hash, Structural)]
pub enum ElementState {
    Pressed,
    Released,
}

#[derive(Debug, Copy, Clone, PartialEq, Eq, Hash, Structural)]
pub enum MouseButton {
    Left,
    Right,
    Middle,
    Back,
    Forward,
    Other(u16),
}

#[derive(Debug, Copy, Clone, PartialEq, Eq, Hash, Structural)]
pub enum TouchPhase {
    Started,
    Moved,
    Ended,
    Cancelled,
}

/// How hard a touch presses.
#[derive(Debug, Copy, Clone, PartialEq, Eq, Structural)]
pub enum Force {
    Calibrated { force: F64Bits, max_possible_force: F64Bits, altitude_angle: Option<F64Bits> },
    Normalized(F64Bits),
}

/// One finger or stylus on a touch surface.
#[derive(Debug, Copy, Clone, PartialEq, Eq, Structural)]
pub struct Touch {
    pub device_id: DeviceId,
    pub phase: TouchPhase,
    pub location: PhysicalPosition<F64Bits>,
    pub force: Option<Force>,
    pub id: u64,
}

/// Input-method events.
#[derive(Debug, Clone, PartialEq, Eq)]
pub enum Ime {
    Enabled,
    /// Text under composition, with the byte range of the cursor in it.
    Preedit(String, Option<(usize, usize)>),
    /// Text that the input method has settled on.
    Commit(String),
    Disabled,
}

/// What only this platform knows of a key event: nothing.
#[derive(Debug, Copy, Clone, PartialEq, Eq, Hash, Structural)]
pub struct KeyEventExtra;

#[derive(Debug, Clone, PartialEq, Eq)]
pub struct KeyEvent {
    pub physical_key: PhysicalKey,
    pub logical_key: Key,
    pub text: Option<SmolStr>,
    pub location: KeyLocation,
    pub state: ElementState,
    pub repeat: bool,
    pub platform_specific: KeyEventExtra,
}

/// What happened to a window.
#[derive(Debug, Clone, PartialEq)]
#[allow(inconsistent_fields)]
pub enum WindowEvent {
    Resized(PhysicalSize<u32>),
    CloseRequested,
    RedrawRequested,
    CursorMoved { device_id: DeviceId, position: PhysicalPosition<F64Bits>, root_position: PhysicalPosition<F64Bits> },
    MouseInput { device_id: DeviceId, state: ElementState, button: MouseButton },
    KeyboardInput { device_id: DeviceId, event: KeyEvent, is_synthetic: bool },
    Ime(Ime),
    Touch(Touch),
    PinchGesture { device_id: DeviceId, delta: F64Bits, phase: TouchPhase },
    PanGesture { device_id: DeviceId, delta: PhysicalPosition<F64Bits>, phase: TouchPhase },
    DoubleTapGesture { device_id: DeviceId },
    RotationGesture { device_id: DeviceId, delta: F64Bits, phase: TouchPhase },
}

/// What an input device reported, whichever window has the focus.
#[derive(Debug, Copy, Clone, PartialEq, Eq, Structural)]
pub enum DeviceEvent {
    MouseMotion { delta_x: F64Bits, delta_y: F64Bits },
}

/// One entry of the stream that the application consumes. `T` is the application's own
/// payload for user events.
#[derive(Debug, Clone, PartialEq)]
#[allow(inconsistent_fields)]
pub enum Event<T> {
    NewEvents(StartCause),
    WindowEvent { window_id: WindowId, event: WindowEvent },
    DeviceEvent { device_id: DeviceId, event: DeviceEvent },
    UserEvent(T),
    Suspended,
    Resumed,
    AboutToWait,
    LoopExiting,
}

impl<T> Event<T> {
    /// Whether the event comes from a producer: a window event or a device event. The
    /// other variants mark the loop's own lifecycle or carry the application's payload.
    pub open spec fn is_producer_event(self) -> bool {
        self is WindowEvent || self is DeviceEvent
    }

    /// Whether the event is a window or device event.
    pub fn from_producer(&self) -> (b: bool)
        ensures
            b == self.is_producer_event(),
    {
        match self {
            Event::WindowEvent { .. } => true,
            Event::DeviceEvent { .. } => true,
            _ => false,
        }
    }

    /// The same event under another user payload type. Defined for every event but a
    /// user event, which has no counterpart; there the result is left open.
    pub open spec fn retagged<U>(self) -> Event<U> {
        match self {
            Event::NewEvents(cause) => Event::NewEvents(cause),
            Event::WindowEvent { window_id, event } => Event::WindowEvent { window_id, event },
            Event::DeviceEvent { device_id, event } => Event::DeviceEvent { device_id, event },
            Event::UserEvent(_) => arbitrary(),
            Event::Suspended => Event::Suspended,
            Event::Resumed => Event::Resumed,
            Event::AboutToWait => Event::AboutToWait,
            Event::LoopExiting => Event::LoopExiting,
        }
    }

    /// Changes the user payload type of an event that carries no user payload. A user
    /// event comes back unchanged as the error.
    pub fn map_nonuser_event<U>(self) -> (r: Result<Event<U>, Event<T>>)
        ensures
            self is UserEvent ==> r == Err::<Event<U>, Event<T>>(self),
            !(self is UserEvent) ==> r == Ok::<Event<U>, Event<T>>(self.retagged::<U>()),
    {
        match self {
            Event::UserEvent(payload) => Err(Event::UserEvent(payload)),
            Event::NewEvents(cause) => Ok(Event::NewEvents(cause)),
            Event::WindowEvent { window_id, event } => Ok(Event::WindowEvent { window_id, event }),
            Event::DeviceEvent { device_id, event } => Ok(Event::DeviceEvent { device_id, event }),
            Event::Suspended => Ok(Event::Suspended),
            Event::Resumed => Ok(Event::Resumed),
            Event::AboutToWait => Ok(Event::AboutToWait),
            Event::LoopExiting => Ok(Event::LoopExiting),
        }
    }
}

} // verus!
