//! Monitors and their video modes. The browser tells of neither, so the platform never
//! hands one out.

use vstd::prelude::*;

verus! {

/// A monitor.
#[derive(Clone, Copy, Debug, PartialEq, Eq, Hash, Structural)]
pub struct MonitorHandle;

/// A video mode of a monitor.
#[derive(Clone, Copy, Debug, PartialEq, Eq, Hash, Structural)]
pub struct VideoModeHandle;

/// A way to fill the screen.
#[derive(Clone, Copy, Debug, PartialEq, Eq, Structural)]
pub enum Fullscreen {
    Exclusive(VideoModeHandle),
    Borderless(Option<MonitorHandle>),
}

} // verus!
