//! What an AppBar asks of the desktop, and what the desktop answers.

use vstd::prelude::*;

use crate::error::AppBarError;
use crate::types::{MonitorInfo, Rect};
use crate::win32::{SWP_NOACTIVATE, SWP_NOOWNERZORDER, SWP_NOZORDER};

verus! {

/// What an AppBar message carries to the Shell, and carries back.
///
/// The byte size of the native structure is not among these fields: the code
/// that makes the native call fills it in.
#[derive(Debug, Clone, Copy, PartialEq, Eq, Structural)]
pub struct AppBarData {
    pub hwnd: isize,
    pub callback_message: u32,
    pub edge: u32,
    pub rect: Rect,
    pub lparam: isize,
}

/// A call that an AppBar needs made.
#[derive(Debug, Clone, Copy, PartialEq, Eq, Structural)]
pub enum Request {
    /// Send an AppBar message to the Shell.
    AppBarMessage { message: u32, data: AppBarData },
    /// Move the window to `rect`, see [`window_placement`].
    SetWindowPos { hwnd: isize, rect: Rect },
    /// Find the bounds of the monitor at `index`, see [`monitor_rect`].
    MonitorRect { index: usize },
    /// Show or hide the window.
    ShowWindow { hwnd: isize, command: i32 },
}

/// The outcome of the call that a [`Request`] asked for.
#[derive(Debug)]
pub enum Reply {
    /// What the Shell returned, and the data as it left them.
    AppBarMessage { result: usize, data: AppBarData },
    /// Whether the window was moved.
    SetWindowPos(Result<(), AppBarError>),
    /// The monitor's bounds.
    MonitorRect(Result<Rect, AppBarError>),
    /// The window was shown or hidden.
    ShowWindow,
}

impl Request {
    /// Whether this request sends `message` to the Shell.
    pub open spec fn sends(self, message: u32) -> bool {
        self matches Request::AppBarMessage { message: sent, .. } && sent == message
    }

    /// Whether `reply` is the kind of reply that this request gets.
    pub open spec fn answered_by(self, reply: Reply) -> bool {
        match self {
            Request::AppBarMessage { .. } => reply is AppBarMessage,
            Request::SetWindowPos { .. } => reply is SetWindowPos,
            Request::MonitorRect { .. } => reply is MonitorRect,
            Request::ShowWindow { .. } => reply is ShowWindow,
        }
    }
}

/// The arguments with which a window is moved to a rectangle.
#[derive(Debug, Clone, Copy, PartialEq, Eq, Structural)]
pub struct WindowPlacement {
    pub x: i32,
    pub y: i32,
    pub width: i32,
    pub height: i32,
    pub flags: u32,
}

/// Returns the arguments with which a window is moved to `rect`: the
/// rectangle's corner and extent, without activating the window and without
/// changing its place, or its owner's, in the Z order.
pub fn window_placement(rect: Rect) -> (placement: WindowPlacement)
    requires
        i32::MIN <= rect.right - rect.left <= i32::MAX,
        i32::MIN <= rect.bottom - rect.top <= i32::MAX,
    ensures
        placement.x == rect.left,
        placement.y == rect.top,
        placement.width == rect.right - rect.left,
        placement.height == rect.bottom - rect.top,
        placement.flags == 0x0214,
{
    let flags: u32 = SWP_NOACTIVATE | SWP_NOOWNERZORDER | SWP_NOZORDER;
    assert(0x0010u32 | 0x0200u32 | 0x0004u32 == 0x0214u32) by (bit_vector);
    WindowPlacement {
        x: rect.left,
        y: rect.top,
        width: rect.right - rect.left,
        height: rect.bottom - rect.top,
        flags,
    }
}

/// Returns the bounds of the monitor at `index` of an enumeration.
pub fn monitor_rect(
    monitors: Result<Vec<MonitorInfo>, AppBarError>,
    index: usize,
) -> (bounds: Result<Rect, AppBarError>)
    ensures
        bounds == match monitors {
            Err(error) => Err(error),
            Ok(list) => if index < list@.len() {
                Ok(list@[index as int].bounds.rect())
            } else {
                Err(AppBarError::MonitorNotFound { index })
            },
        },
{
    match monitors {
        Err(error) => Err(error),
        Ok(list) => {
            if index < list.len() {
                let bounds = list[index].bounds;
                Ok(
                    Rect {
                        left: bounds.left,
                        top: bounds.top,
                        right: bounds.right,
                        bottom: bounds.bottom,
                    },
                )
            } else {
                Err(AppBarError::MonitorNotFound { index })
            }
        },
    }
}

} // verus!
