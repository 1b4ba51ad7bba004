//! The Win32 numbers that the AppBar protocol is written in.

use vstd::prelude::*;

verus! {

/// Sent to a window that is being destroyed.
pub const WM_DESTROY: u32 = 0x0002;

/// Sent to a window whose size, position or place in the Z order has changed.
pub const WM_WINDOWPOSCHANGED: u32 = 0x0047;

/// The first message number that is free for private use by an application.
pub const WM_APP: u32 = 0x8000;

/// Registers a new AppBar.
pub const ABM_NEW: u32 = 0;

/// Unregisters an AppBar.
pub const ABM_REMOVE: u32 = 1;

/// Asks the Shell to adjust a proposed rectangle.
pub const ABM_QUERYPOS: u32 = 2;

/// Tells the Shell the rectangle that the AppBar takes.
pub const ABM_SETPOS: u32 = 3;

/// Tells the Shell that the AppBar's window has moved.
pub const ABM_WINDOWPOSCHANGED: u32 = 9;

/// The notification that something has changed the AppBar's position.
pub const ABN_POSCHANGED: u32 = 1;

/// The left edge of the screen.
pub const ABE_LEFT: u32 = 0;

/// The top edge of the screen.
pub const ABE_TOP: u32 = 1;

/// The right edge of the screen.
pub const ABE_RIGHT: u32 = 2;

/// The bottom edge of the screen.
pub const ABE_BOTTOM: u32 = 3;

/// Hides a window.
pub const SW_HIDE: i32 = 0;

/// Shows a window without activating it.
pub const SW_SHOWNA: i32 = 8;

/// Keeps the window's place in the Z order.
pub const SWP_NOZORDER: u32 = 0x0004;

/// Does not activate the window.
pub const SWP_NOACTIVATE: u32 = 0x0010;

/// Keeps the owner window's place in the Z order.
pub const SWP_NOOWNERZORDER: u32 = 0x0200;

/// The low 32 bits of a `WPARAM`, which hold the code of an AppBar notification.
pub open spec fn notification_code(wparam: usize) -> int {
    wparam as int % 0x1_0000_0000
}

/// The messages and commands are numbered as in the headers of Windows.
pub proof fn law_numbers_are_those_of_the_windows_headers()
    ensures
        WM_DESTROY == 0x0002,
        WM_WINDOWPOSCHANGED == 0x0047,
        WM_APP == 0x8000,
        ABM_NEW == 0,
        ABM_REMOVE == 1,
        ABM_QUERYPOS == 2,
        ABM_SETPOS == 3,
        ABM_WINDOWPOSCHANGED == 9,
        ABN_POSCHANGED == 1,
        SW_HIDE == 0,
        SW_SHOWNA == 8,
        SWP_NOZORDER == 0x0004,
        SWP_NOACTIVATE == 0x0010,
        SWP_NOOWNERZORDER == 0x0200,
{
}

/// The code of a notification fits in 32 bits, and `WPARAM`s that differ only above
/// those have the same code.
pub proof fn law_notification_codes_are_the_low_half(wparam: usize, other: usize, high: int)
    requires
        other == wparam + high * 0x1_0000_0000,
    ensures
        0 <= notification_code(wparam) < 0x1_0000_0000,
        wparam < 0x1_0000_0000 ==> notification_code(wparam) == wparam,
        notification_code(other) == notification_code(wparam),
{
}

/// Whether a notification with this `WPARAM` reports a changed AppBar position.
pub fn is_position_change(wparam: usize) -> (changed: bool)
    ensures
        changed == (notification_code(wparam) == ABN_POSCHANGED),
{
    let wide: u64 = wparam as u64;
    let code: u32 = #[verifier::truncate]
    (wide as u32);
    assert(wide as u32 == wide % 0x1_0000_0000) by (bit_vector);
    code == ABN_POSCHANGED
}

} // verus!
