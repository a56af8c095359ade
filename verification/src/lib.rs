//! Event normalization and control-flow scheduling for a windowing event loop.
//!
//! Producers push normalized events into an [`event_hub::EventHub`];
//! other threads inject user events through an [`event_loop::EventLoopProxy`]. The
//! [`event_loop::EventLoop`] turns both into one ordered stream, one step at a time, and
//! decides after every iteration whether the consumer polls, sleeps until a deadline or
//! sleeps until a producer wakes it.

pub mod channel;
pub mod control_flow;
pub mod cursor;
pub mod driver;
pub mod emscripten;
pub mod error;
pub mod event;
pub mod event_hub;
pub mod event_loop;
pub mod geometry;
pub mod ios;
pub mod keyboard;
pub mod monitor;
pub mod text_input;
pub mod time;
pub mod trace;
pub mod window;
pub mod window_target;
