//! From a window's handle to the `HWND` behind it.

use vstd::prelude::*;

use crate::error::AppBarError;

verus! {

/// The handle of a window of some windowing system, of type
/// `raw_window_handle::RawWindowHandle`.
#[verifier::external_type_specification]
#[verifier::external_body]
pub struct ExRawWindowHandle(raw_window_handle::RawWindowHandle);

/// The `HWND` that `handle` holds, or nothing if it is the handle of another
/// windowing system than Win32.
pub uninterp spec fn win32_window(handle: raw_window_handle::RawWindowHandle) -> Option<isize>;

/// Reads the `hwnd` of the `Win32WindowHandle` in the `Win32` variant of
/// `raw_window_handle::RawWindowHandle`; no other variant has one.
///
/// The contract claims that the handle alone decides whether there is an `HWND`
/// and which, and that it is not zero, which the type of that field rules out.
#[verifier::external_body]
fn raw_win32_window(handle: &raw_window_handle::RawWindowHandle) -> (window: Option<isize>)
    ensures
        window == win32_window(*handle),
        window matches Some(hwnd) ==> hwnd != 0,
{
    match handle {
        raw_window_handle::RawWindowHandle::Win32(win32) => Some(win32.hwnd.get()),
        _ => None,
    }
}

/// The window that a handle stands for, or the error that tells why it stands
/// for none.
pub open spec fn window_of(
    handle: Result<raw_window_handle::RawWindowHandle, raw_window_handle::HandleError>,
) -> Result<isize, AppBarError> {
    match handle {
        Err(error) => Err(AppBarError::WindowHandle(error)),
        Ok(handle) => match win32_window(handle) {
            Some(window) => Ok(window),
            None => Err(AppBarError::NotAWin32Window),
        },
    }
}

/// A handle that could not be had stands for no window, with the error of asking for
/// it. A handle of Win32 stands for the `HWND` that it holds, and one of another
/// windowing system for no window.
pub proof fn law_handles_stand_for_their_window(
    error: raw_window_handle::HandleError,
    handle: raw_window_handle::RawWindowHandle,
    hwnd: isize,
)
    ensures
        window_of(Err(error)) == Err::<isize, _>(AppBarError::WindowHandle(error)),
        window_of(Ok(handle)) == Ok::<isize, AppBarError>(hwnd) <==> win32_window(handle) == Some(
            hwnd,
        ),
        window_of(Ok(handle)) == Err::<isize, _>(AppBarError::NotAWin32Window) <==> win32_window(
            handle,
        ) is None,
{
}

/// Returns the window that a handle stands for.
pub fn hwnd_from_window(
    handle: Result<raw_window_handle::RawWindowHandle, raw_window_handle::HandleError>,
) -> (hwnd: Result<isize, AppBarError>)
    ensures
        hwnd == window_of(handle),
        hwnd matches Ok(hwnd) ==> hwnd != 0,
{
    match handle {
        Err(error) => Err(AppBarError::WindowHandle(error)),
        Ok(handle) => win32_window_or_error(raw_win32_window(&handle)),
    }
}

/// Returns the `HWND` that a handle holds, or the error that it holds none.
pub fn win32_window_or_error(window: Option<isize>) -> (hwnd: Result<isize, AppBarError>)
    ensures
        hwnd == match window {
            Some(window) => Ok(window),
            None => Err(AppBarError::NotAWin32Window),
        },
{
    match window {
        Some(window) => Ok(window),
        None => Err(AppBarError::NotAWin32Window),
    }
}

} // verus!
