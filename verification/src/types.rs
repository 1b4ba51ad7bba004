//! Edges, rectangles and monitors.

use vstd::prelude::*;

use crate::win32::{ABE_BOTTOM, ABE_LEFT, ABE_RIGHT, ABE_TOP, WM_APP};

verus! {

/// The callback message used by [`crate::AppBar::register`].
///
/// Use [`crate::AppBar::register_with_callback_message`] if this conflicts
/// with a message already used by the host application.
pub const APP_BAR_CALLBACK_MESSAGE: u32 = WM_APP + 0x3a0;

/// The desktop edge occupied by an AppBar.
#[derive(Debug, Clone, Copy, PartialEq, Eq, Structural)]
pub enum Edge {
    Left,
    Top,
    Right,
    Bottom,
}

impl Edge {
    /// The number by which the Shell knows this edge.
    pub open spec fn code(self) -> u32 {
        match self {
            Edge::Left => ABE_LEFT,
            Edge::Top => ABE_TOP,
            Edge::Right => ABE_RIGHT,
            Edge::Bottom => ABE_BOTTOM,
        }
    }

    /// Returns the number by which the Shell knows this edge.
    pub fn as_appbar_edge(self) -> (code: u32)
        ensures
            code == self.code(),
    {
        match self {
            Edge::Left => ABE_LEFT,
            Edge::Top => ABE_TOP,
            Edge::Right => ABE_RIGHT,
            Edge::Bottom => ABE_BOTTOM,
        }
    }
}

/// A rectangle in virtual-screen physical pixels, as the native calls pass it.
#[derive(Debug, Clone, Copy, PartialEq, Eq, Structural)]
pub struct Rect {
    pub left: i32,
    pub top: i32,
    pub right: i32,
    pub bottom: i32,
}

impl Rect {
    /// The rectangle with every side at zero.
    pub open spec fn zero() -> Rect {
        Rect { left: 0, top: 0, right: 0, bottom: 0 }
    }
}

impl Default for Rect {
    fn default() -> (rect: Rect)
        ensures
            rect == Rect::zero(),
    {
        Rect { left: 0, top: 0, right: 0, bottom: 0 }
    }
}

/// The bounds of a display monitor in virtual-screen physical pixels.
#[derive(Debug, Clone, Copy, PartialEq, Eq, Structural)]
pub struct MonitorRect {
    pub left: i32,
    pub top: i32,
    pub right: i32,
    pub bottom: i32,
}

impl MonitorRect {
    /// The same bounds as a native rectangle.
    pub open spec fn rect(self) -> Rect {
        Rect { left: self.left, top: self.top, right: self.right, bottom: self.bottom }
    }
}

impl From<Rect> for MonitorRect {
    fn from(rect: Rect) -> (bounds: MonitorRect) {
        MonitorRect { left: rect.left, top: rect.top, right: rect.right, bottom: rect.bottom }
    }
}

impl vstd::std_specs::convert::FromSpecImpl<Rect> for MonitorRect {
    open spec fn obeys_from_spec() -> bool {
        true
    }

    open spec fn from_spec(rect: Rect) -> MonitorRect {
        MonitorRect { left: rect.left, top: rect.top, right: rect.right, bottom: rect.bottom }
    }
}

/// A monitor in the order used by the AppBar registration calls.
///
/// `index` is zero-based and is the order in which the system enumerates its
/// monitors. It is not the number shown by Windows Display Settings, and may
/// change when the display configuration changes.
#[derive(Debug, Clone, Copy, PartialEq, Eq, Structural)]
pub struct MonitorInfo {
    pub index: usize,
    pub bounds: MonitorRect,
}

/// The Shell numbers the edges clockwise from the left, which is zero.
pub proof fn law_edges_are_numbered_clockwise_from_the_left()
    ensures
        Edge::Left.code() == 0,
        Edge::Top.code() == 1,
        Edge::Right.code() == 2,
        Edge::Bottom.code() == 3,
{
}

/// The Shell knows different edges by different numbers.
pub proof fn law_edges_have_their_own_codes(one: Edge, other: Edge)
    ensures
        one.code() == other.code() <==> one == other,
{
}

} // verus!
