//! The strip of the screen that an AppBar takes along an edge.

use vstd::prelude::*;

use crate::types::{Edge, Rect};

verus! {

/// The strip of thickness `size` along `edge` of `rect`: it shares every side
/// with `rect` but the one across from `edge`, which stands `size` away from
/// that edge.
pub open spec fn strip(rect: Rect, edge: Edge, size: int) -> Rect {
    match edge {
        Edge::Left => Rect { right: (rect.left + size) as i32, ..rect },
        Edge::Top => Rect { bottom: (rect.top + size) as i32, ..rect },
        Edge::Right => Rect { left: (rect.right - size) as i32, ..rect },
        Edge::Bottom => Rect { top: (rect.bottom - size) as i32, ..rect },
    }
}

/// Whether the sides of the strip along `edge` of `rect` are numbers that a
/// [`Rect`] can hold.
pub open spec fn strip_fits(rect: Rect, edge: Edge, size: int) -> bool {
    match edge {
        Edge::Left => i32::MIN <= rect.left + size <= i32::MAX,
        Edge::Top => i32::MIN <= rect.top + size <= i32::MAX,
        Edge::Right => i32::MIN <= rect.right - size <= i32::MAX,
        Edge::Bottom => i32::MIN <= rect.bottom - size <= i32::MAX,
    }
}

/// The extent of `rect` from `edge` to the side across from it.
pub open spec fn thickness(rect: Rect, edge: Edge) -> int {
    match edge {
        Edge::Left | Edge::Right => rect.right - rect.left,
        Edge::Top | Edge::Bottom => rect.bottom - rect.top,
    }
}

/// The coordinate of the side of `rect` at `edge`.
pub open spec fn side(rect: Rect, edge: Edge) -> i32 {
    match edge {
        Edge::Left => rect.left,
        Edge::Top => rect.top,
        Edge::Right => rect.right,
        Edge::Bottom => rect.bottom,
    }
}

/// The edge across from `edge`.
pub open spec fn across(edge: Edge) -> Edge {
    match edge {
        Edge::Left => Edge::Right,
        Edge::Top => Edge::Bottom,
        Edge::Right => Edge::Left,
        Edge::Bottom => Edge::Top,
    }
}

/// Whether every point of `inner` is a point of `outer`.
pub open spec fn within(inner: Rect, outer: Rect) -> bool {
    &&& outer.left <= inner.left
    &&& outer.top <= inner.top
    &&& inner.right <= outer.right
    &&& inner.bottom <= outer.bottom
}

/// Whether the strip along `edge` of `rect` has sides that a [`Rect`] can hold.
pub fn check_strip(rect: &Rect, edge: Edge, size: i32) -> (fits: bool)
    ensures
        fits == strip_fits(*rect, edge, size as int),
{
    let far: Option<i32> = match edge {
        Edge::Left => rect.left.checked_add(size),
        Edge::Top => rect.top.checked_add(size),
        Edge::Right => rect.right.checked_sub(size),
        Edge::Bottom => rect.bottom.checked_sub(size),
    };
    far.is_some()
}

/// The strip has the requested thickness and keeps all sides of the rectangle
/// but the one across from its edge, for every edge.
pub proof fn law_strip_is_anchored_at_its_edge(rect: Rect, edge: Edge, size: int)
    requires
        strip_fits(rect, edge, size),
    ensures
        thickness(strip(rect, edge, size), edge) == size,
        forall|other: Edge|
            other != across(edge) ==> #[trigger] side(strip(rect, edge, size), other) == side(
                rect,
                other,
            ),
{
}

/// The strip fits exactly if some rectangle has its thickness and shares with the
/// rectangle every side but the one across from the edge. There is only one such
/// rectangle: the strip.
pub proof fn law_strip_is_the_only_one(rect: Rect, edge: Edge, size: int, other: Rect)
    ensures
        thickness(other, edge) == size && (forall|kept: Edge|
            kept != across(edge) ==> #[trigger] side(other, kept) == side(rect, kept)) ==> {
            &&& strip_fits(rect, edge, size)
            &&& other == strip(rect, edge, size)
        },
        strip_fits(rect, edge, size) ==> i32::MIN <= side(
            strip(rect, edge, size),
            across(edge),
        ) <= i32::MAX && thickness(strip(rect, edge, size), edge) == size,
{
    assert(side(other, Edge::Left) == other.left && side(rect, Edge::Left) == rect.left);
    assert(side(other, Edge::Top) == other.top && side(rect, Edge::Top) == rect.top);
    assert(side(other, Edge::Right) == other.right && side(rect, Edge::Right) == rect.right);
    assert(side(other, Edge::Bottom) == other.bottom && side(rect, Edge::Bottom) == rect.bottom);
}

/// A strip no thicker than the rectangle it is cut from lies within it.
pub proof fn law_strip_lies_within_its_rectangle(rect: Rect, edge: Edge, size: int)
    requires
        0 <= size <= thickness(rect, edge),
    ensures
        strip_fits(rect, edge, size),
        within(strip(rect, edge, size), rect),
{
}

/// Cutting the strip again from a strip changes nothing, and cutting another
/// thickness from it is cutting that thickness from the rectangle.
pub proof fn law_strip_depends_on_the_last_thickness(rect: Rect, edge: Edge, first: int, last: int)
    requires
        strip_fits(rect, edge, first),
        strip_fits(rect, edge, last),
    ensures
        strip_fits(strip(rect, edge, first), edge, last),
        strip(strip(rect, edge, first), edge, last) == strip(rect, edge, last),
        strip(strip(rect, edge, first), edge, first) == strip(rect, edge, first),
{
}

} // verus!
