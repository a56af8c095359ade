//! Raw handles for the libraries that draw into a window.

use raw_window_handle::{HandleError, RawDisplayHandle, RawWindowHandle, WebDisplayHandle};
use vstd::prelude::*;

verus! {

/// `raw_window_handle::RawDisplayHandle`, the handle of a display.
#[verifier::external_type_specification]
#[verifier::external_body]
pub struct ExRawDisplayHandle(RawDisplayHandle);

/// `raw_window_handle::RawWindowHandle`, the handle of a window.
#[verifier::external_type_specification]
#[verifier::external_body]
pub struct ExRawWindowHandle(RawWindowHandle);

/// `raw_window_handle::HandleError`, why a handle cannot be had.
#[verifier::external_type_specification]
#[verifier::external_body]
pub struct ExHandleError(HandleError);

/// Calls `WebDisplayHandle::new` and wraps the empty handle it returns as the display
/// handle of the web.
#[verifier::external_body]
pub(crate) fn web_display_handle() -> (handle: RawDisplayHandle) {
    RawDisplayHandle::Web(WebDisplayHandle::new())
}

/// The error `HandleError::Unavailable`: there is no handle to give at present.
#[verifier::external_body]
pub(crate) fn handle_unavailable() -> (error: HandleError) {
    HandleError::Unavailable
}

/// A display handle that may outlive the loop it came from.
#[derive(Clone, Copy, Debug, PartialEq, Eq, Structural)]
pub struct OwnedDisplayHandle;

impl OwnedDisplayHandle {
    /// The raw display handle of the web, which holds nothing.
    pub fn raw_display_handle_rwh_06(&self) -> (r: Result<RawDisplayHandle, HandleError>)
        ensures
            r is Ok,
    {
        Ok(web_display_handle())
    }
}

} // verus!
