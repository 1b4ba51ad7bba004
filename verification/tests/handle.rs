use std::num::NonZeroIsize;

use raw_window_handle::{HandleError, RawWindowHandle, WebWindowHandle, Win32WindowHandle};
use windows_app_bar::handle::win32_window_or_error;
use windows_app_bar::{hwnd_from_window, AppBarError};

fn win32_handle(hwnd: isize) -> Result<RawWindowHandle, HandleError> {
    let hwnd = NonZeroIsize::new(hwnd).ok_or(HandleError::Unavailable)?;
    Ok(RawWindowHandle::Win32(Win32WindowHandle::new(hwnd)))
}

fn non_win32_handle() -> Result<RawWindowHandle, HandleError> {
    Ok(RawWindowHandle::Web(WebWindowHandle::new(0)))
}

#[test]
fn hwnd_from_window_validates_the_handle_type() {
    assert_eq!(hwnd_from_window(win32_handle(1)).unwrap(), 1);
    assert!(matches!(
        hwnd_from_window(non_win32_handle()),
        Err(AppBarError::NotAWin32Window)
    ));
}

#[test]
fn hwnd_from_window_reads_the_window_of_the_handle() {
    assert_eq!(hwnd_from_window(win32_handle(0x1234)).unwrap(), 0x1234);
    assert_eq!(hwnd_from_window(win32_handle(-7)).unwrap(), -7);
}

#[test]
fn hwnd_from_window_reports_a_missing_handle() {
    assert!(matches!(
        hwnd_from_window(win32_handle(0)),
        Err(AppBarError::WindowHandle(HandleError::Unavailable))
    ));
}

#[test]
fn a_handle_without_a_window_is_an_error() {
    assert_eq!(win32_window_or_error(Some(9)).unwrap(), 9);
    assert!(matches!(win32_window_or_error(None), Err(AppBarError::NotAWin32Window)));
}
