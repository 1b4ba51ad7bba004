use windows_app_bar::platform::{monitor_rect, window_placement, WindowPlacement};
use windows_app_bar::win32::{SWP_NOACTIVATE, SWP_NOOWNERZORDER, SWP_NOZORDER};
use windows_app_bar::{enumerate_monitors, AppBarError, MonitorInfo, MonitorRect, Rect};
use windows_result::{Error, HRESULT};

fn primary() -> Rect {
    Rect { left: 0, top: 0, right: 1920, bottom: 1080 }
}

fn secondary() -> Rect {
    Rect { left: -2560, top: 100, right: 0, bottom: 1540 }
}

fn error(code: i32) -> Error {
    Error::from_hresult(HRESULT(code))
}

#[test]
fn monitors_are_indexed_in_enumeration_order() {
    let monitors = enumerate_monitors(Ok(vec![Ok(primary()), Ok(secondary())])).unwrap();
    assert_eq!(
        monitors,
        vec![
            MonitorInfo {
                index: 0,
                bounds: MonitorRect { left: 0, top: 0, right: 1920, bottom: 1080 },
            },
            MonitorInfo {
                index: 1,
                bounds: MonitorRect { left: -2560, top: 100, right: 0, bottom: 1540 },
            },
        ]
    );
}

#[test]
fn no_monitors_make_an_empty_list() {
    assert!(enumerate_monitors(Ok(Vec::new())).unwrap().is_empty());
}

#[test]
fn a_failed_enumeration_is_reported() {
    assert!(matches!(
        enumerate_monitors(Err(error(5))),
        Err(AppBarError::Windows(e)) if e.code() == HRESULT(5)
    ));
}

#[test]
fn the_first_monitor_without_bounds_is_reported() {
    let result = enumerate_monitors(Ok(vec![Ok(primary()), Err(error(6)), Err(error(7))]));
    assert!(matches!(result, Err(AppBarError::Windows(e)) if e.code() == HRESULT(6)));
}

#[test]
fn a_monitor_is_found_by_its_index() {
    let listed = || enumerate_monitors(Ok(vec![Ok(primary()), Ok(secondary())]));
    assert_eq!(monitor_rect(listed(), 1).unwrap(), secondary());
    assert!(matches!(
        monitor_rect(listed(), 2),
        Err(AppBarError::MonitorNotFound { index: 2 })
    ));
    assert!(matches!(
        monitor_rect(enumerate_monitors(Err(error(5))), 0),
        Err(AppBarError::Windows(_))
    ));
}

#[test]
fn native_bounds_convert_to_monitor_bounds() {
    assert_eq!(
        MonitorRect::from(secondary()),
        MonitorRect { left: -2560, top: 100, right: 0, bottom: 1540 }
    );
}

#[test]
fn a_window_is_placed_by_corner_and_extent() {
    assert_eq!(
        window_placement(Rect { left: -2560, top: 1492, right: 0, bottom: 1540 }),
        WindowPlacement {
            x: -2560,
            y: 1492,
            width: 2560,
            height: 48,
            flags: SWP_NOACTIVATE | SWP_NOOWNERZORDER | SWP_NOZORDER,
        }
    );
    assert_eq!(window_placement(Rect::default()).flags, 0x0214);
}
