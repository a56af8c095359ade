//! Errors.

use vstd::prelude::*;

verus! {

/// An error that the platform reported, as a message.
#[derive(Debug, Clone, PartialEq, Eq)]
pub struct OsError(pub String);

impl OsError {
    /// The platform's message.
    pub fn to_string(&self) -> (message: String)
        ensures
            message@ == self.0@,
    {
        self.0.clone()
    }
}

/// The platform does not offer what was asked for.
#[derive(Debug, Copy, Clone, PartialEq, Eq, Structural)]
pub struct NotSupportedError {}

impl NotSupportedError {
    pub fn new() -> (e: NotSupportedError) {
        NotSupportedError {  }
    }
}

/// Why a request to a window failed.
#[derive(Debug, Clone, PartialEq, Eq)]
pub enum ExternalError {
    NotSupported(NotSupportedError),
    Ignored,
    Os(OsError),
}

/// Why an event loop could not be made or run.
#[derive(Debug, Clone, PartialEq, Eq)]
pub enum EventLoopError {
    NotSupported(NotSupportedError),
    Os(OsError),
    RecreationAttempt,
    ExitFailure(i32),
}

} // verus!
