//! The monitors of the desktop, in enumeration order.

use vstd::prelude::*;

use crate::error::AppBarError;
use crate::types::{MonitorInfo, MonitorRect, Rect};

verus! {

/// The monitor that stands at `index` of the enumeration with the bounds `rect`.
pub open spec fn monitor_at(index: int, rect: Rect) -> MonitorInfo {
    MonitorInfo {
        index: index as usize,
        bounds: MonitorRect {
            left: rect.left,
            top: rect.top,
            right: rect.right,
            bottom: rect.bottom,
        },
    }
}

/// Lists the monitors in the order accepted by [`crate::AppBar::register`]
/// and [`crate::SubclassedAppBar::register`].
///
/// `enumerated` is what the system reported: the error of the enumeration
/// itself, or for each monitor in turn its bounds or the error of asking for
/// them. Each monitor gets its place in that order as its index; the first
/// error is returned, and what comes after it does not matter.
pub fn enumerate_monitors(
    enumerated: Result<Vec<Result<Rect, windows_result::Error>>, windows_result::Error>,
) -> (monitors: Result<Vec<MonitorInfo>, AppBarError>)
    ensures
        enumerated matches Err(error) ==> monitors == Err::<Vec<MonitorInfo>, _>(
            AppBarError::Windows(error),
        ),
        enumerated matches Ok(bounds) ==> match monitors {
            Ok(list) => {
                &&& list@.len() == bounds@.len()
                &&& forall|i: int|
                    0 <= i < bounds@.len() ==> bounds@[i] is Ok && #[trigger] list@[i]
                        == monitor_at(i, bounds@[i]->Ok_0)
            },
            Err(error) => exists|k: int|
                {
                    &&& 0 <= k < bounds@.len()
                    &&& #[trigger] bounds@[k] is Err
                    &&& error == AppBarError::Windows(bounds@[k]->Err_0)
                    &&& forall|i: int| 0 <= i < k ==> #[trigger] bounds@[i] is Ok
                },
        },
{
    let mut bounds = match enumerated {
        Ok(bounds) => bounds,
        Err(error) => {
            return Err(AppBarError::from(error));
        },
    };
    let ghost reported = bounds@;
    let mut list: Vec<MonitorInfo> = Vec::new();
    let mut index: usize = 0;
    while index < bounds.len()
        invariant
            bounds@ == reported,
            enumerated matches Ok(all) && all@ == reported,
            index <= bounds@.len(),
            list@.len() == index,
            forall|i: int| 0 <= i < index ==> #[trigger] reported[i] is Ok,
            forall|i: int|
                0 <= i < index ==> #[trigger] list@[i] == monitor_at(i, reported[i]->Ok_0),
        decreases bounds@.len() - index,
    {
        match &bounds[index] {
            Ok(rect) => {
                list.push(MonitorInfo { index, bounds: MonitorRect::from(*rect) });
            },
            Err(_) => {
                assert(reported[index as int] is Err);
                if let Err(error) = bounds.swap_remove(index) {
                    return Err(AppBarError::from(error));
                }
            },
        }
        index = index + 1;
    }
    Ok(list)
}

/// A listed monitor has its place in the enumeration as its index, and the bounds that
/// the system reported for it.
pub proof fn law_listed_monitors_are_numbered_in_order(index: usize, rect: Rect)
    ensures
        monitor_at(index as int, rect).index == index,
        monitor_at(index as int, rect).bounds.left == rect.left,
        monitor_at(index as int, rect).bounds.top == rect.top,
        monitor_at(index as int, rect).bounds.right == rect.right,
        monitor_at(index as int, rect).bounds.bottom == rect.bottom,
{
}

/// The bounds of a listed monitor, as a native rectangle, are those that the
/// system reported for it.
pub proof fn law_listed_bounds_are_the_reported_ones(index: int, rect: Rect)
    ensures
        monitor_at(index, rect).bounds.rect() == rect,
{
}

} // verus!
