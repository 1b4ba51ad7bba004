//! What can go wrong.

use vstd::prelude::*;

verus! {

/// The error of asking a window for its handle, of type
/// `raw_window_handle::HandleError`.
#[verifier::external_type_specification]
#[verifier::external_body]
pub struct ExHandleError(raw_window_handle::HandleError);

/// The error of a Windows call, of type `windows_result::Error`, which is the
/// type that `windows::core::Error` names.
#[verifier::external_type_specification]
#[verifier::external_body]
pub struct ExWindowsError(windows_result::Error);

/// Failures of the operations of an AppBar.
#[derive(Debug)]
pub enum AppBarError {
    /// The native window handle could not be obtained.
    WindowHandle(raw_window_handle::HandleError),
    /// The supplied window handle is not a Win32 `HWND`.
    NotAWin32Window,
    /// The AppBar size must be greater than zero.
    InvalidSize,
    /// The supplied window already has a [`crate::SubclassedAppBar`] registered.
    SubclassAlreadyRegistered,
    /// There is no display monitor at `index`.
    MonitorNotFound { index: usize },
    /// The Shell rejected an operation of the AppBar.
    ShellOperationFailed { operation: &'static str },
    /// A Windows call failed.
    Windows(windows_result::Error),
    /// The registration of an AppBar failed, and so did the removal of the
    /// window subclass that had been installed for it.
    SubclassRegistrationCleanup {
        registration_error: Box<AppBarError>,
        subclass_error: windows_result::Error,
    },
}

impl From<windows_result::Error> for AppBarError {
    fn from(error: windows_result::Error) -> (wrapped: Self) {
        AppBarError::Windows(error)
    }
}

impl vstd::std_specs::convert::FromSpecImpl<windows_result::Error> for AppBarError {
    open spec fn obeys_from_spec() -> bool {
        true
    }

    open spec fn from_spec(error: windows_result::Error) -> Self {
        AppBarError::Windows(error)
    }
}

} // verus!
