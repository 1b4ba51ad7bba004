use std::num::NonZeroIsize;

use raw_window_handle::{HandleError, RawWindowHandle, WebWindowHandle, Win32WindowHandle};
use windows_app_bar::geometry::check_strip;
use windows_app_bar::win32::{
    is_position_change, ABE_BOTTOM, ABE_LEFT, ABE_RIGHT, ABE_TOP, ABM_NEW, ABM_QUERYPOS,
    ABM_REMOVE, ABM_SETPOS, ABM_WINDOWPOSCHANGED, ABN_POSCHANGED, SW_HIDE, SW_SHOWNA, WM_DESTROY,
    WM_WINDOWPOSCHANGED,
};
use windows_app_bar::{
    AppBar, AppBarData, AppBarError, AppBarStep, Edge, Rect, Reply, Request,
    APP_BAR_CALLBACK_MESSAGE,
};

/// Answers the calls of an AppBar like a desktop with one monitor.
struct MockAppBarApi {
    messages: Vec<(u32, Rect)>,
    data: Vec<AppBarData>,
    placed: Vec<Rect>,
    shown: Vec<i32>,
    query_response: Rect,
    fail_set_window_pos: bool,
    rejected: Vec<u32>,
    requests: usize,
}

impl MockAppBarApi {
    fn new(query_response: Rect, fail_set_window_pos: bool) -> Self {
        Self {
            messages: Vec::new(),
            data: Vec::new(),
            placed: Vec::new(),
            shown: Vec::new(),
            query_response,
            fail_set_window_pos,
            rejected: Vec::new(),
            requests: 0,
        }
    }

    fn answer(&mut self, request: Request) -> Reply {
        self.requests += 1;
        match request {
            Request::AppBarMessage { message, mut data } => {
                self.messages.push((message, data.rect));
                self.data.push(data);
                if message == ABM_QUERYPOS {
                    data.rect = self.query_response;
                }
                let result = if self.rejected.contains(&message) { 0 } else { 1 };
                Reply::AppBarMessage { result, data }
            }
            Request::SetWindowPos { rect, .. } => {
                self.placed.push(rect);
                Reply::SetWindowPos(if self.fail_set_window_pos {
                    Err(AppBarError::ShellOperationFailed { operation: "positioning" })
                } else {
                    Ok(())
                })
            }
            Request::MonitorRect { index } => Reply::MonitorRect(if index == 0 {
                Ok(screen())
            } else {
                Err(AppBarError::MonitorNotFound { index })
            }),
            Request::ShowWindow { command, .. } => {
                self.shown.push(command);
                Reply::ShowWindow
            }
        }
    }

    fn run(&mut self, app_bar: &mut AppBar, step: AppBarStep) -> AppBarStep {
        let mut step = step;
        while let AppBarStep::Call { request, then } = step {
            let reply = self.answer(request);
            assert!(then.accepts(&reply));
            step = app_bar.resume(then, reply);
        }
        step
    }

    fn finish(&mut self, app_bar: &mut AppBar, step: AppBarStep) -> Result<(), AppBarError> {
        match self.run(app_bar, step) {
            AppBarStep::Finished(result) => result,
            other => panic!("unexpected end of an operation: {other:?}"),
        }
    }

    fn handle(&mut self, app_bar: &mut AppBar, step: AppBarStep) -> Result<bool, AppBarError> {
        match self.run(app_bar, step) {
            AppBarStep::Handled(result) => result,
            other => panic!("unexpected end of a message: {other:?}"),
        }
    }

    fn message_numbers(&self) -> Vec<u32> {
        self.messages.iter().map(|(message, _)| *message).collect()
    }
}

fn screen() -> Rect {
    Rect { left: 0, top: 0, right: 1920, bottom: 1080 }
}

fn app_bar_for_test() -> AppBar {
    AppBar {
        hwnd: 0,
        monitor_index: 0,
        edge: Edge::Bottom,
        size: 30,
        callback_message: APP_BAR_CALLBACK_MESSAGE,
        registered: true,
    }
}

fn hidden_app_bar_for_test() -> AppBar {
    AppBar { registered: false, ..app_bar_for_test() }
}

fn win32_handle(hwnd: isize) -> Result<RawWindowHandle, HandleError> {
    let hwnd = NonZeroIsize::new(hwnd).ok_or(HandleError::Unavailable)?;
    Ok(RawWindowHandle::Win32(Win32WindowHandle::new(hwnd)))
}

fn check_thickness_from_each_edge() {
    let original = Rect { left: 10, top: 20, right: 110, bottom: 220 };

    let mut left = original;
    AppBar::apply_thickness(&mut left, Edge::Left, 30);
    assert_eq!(left.right, 40);

    let mut top = original;
    AppBar::apply_thickness(&mut top, Edge::Top, 30);
    assert_eq!(top.bottom, 50);

    let mut right = original;
    AppBar::apply_thickness(&mut right, Edge::Right, 30);
    assert_eq!(right.left, 80);

    let mut bottom = original;
    AppBar::apply_thickness(&mut bottom, Edge::Bottom, 30);
    assert_eq!(bottom.top, 190);
}

#[test]
fn lib_thickness_is_applied_from_each_requested_edge() {
    check_thickness_from_each_edge();
}

#[test]
fn tests_thickness_is_applied_from_each_requested_edge() {
    check_thickness_from_each_edge();
}

#[test]
fn position_changed_notification_uses_wparam_and_proposes_a_screen_edge_rect() {
    let mut api = MockAppBarApi::new(screen(), false);
    let mut app_bar = app_bar_for_test();

    let step =
        app_bar.handle_window_message(APP_BAR_CALLBACK_MESSAGE, ABN_POSCHANGED as usize, 0);
    assert!(api.handle(&mut app_bar, step).unwrap());

    assert_eq!(api.messages.len(), 2);
    assert_eq!(api.messages[0].0, ABM_QUERYPOS);
    assert_eq!(
        api.messages[0].1,
        Rect { left: 0, top: 1050, right: 1920, bottom: 1080 }
    );
    assert_eq!(api.messages[1].0, ABM_SETPOS);

    let step =
        app_bar.handle_window_message(APP_BAR_CALLBACK_MESSAGE, 0, ABN_POSCHANGED as isize);
    api.handle(&mut app_bar, step).unwrap();
    assert_eq!(api.messages.len(), 2);
}

#[test]
fn failed_reposition_keeps_the_previous_size_and_edge() {
    let mut api = MockAppBarApi::new(Rect::default(), true);
    let mut app_bar = app_bar_for_test();

    let step = app_bar.set_size(40);
    assert!(api.finish(&mut app_bar, step).is_err());
    assert_eq!(app_bar.size(), 30);

    let step = app_bar.set_edge(Edge::Left);
    assert!(api.finish(&mut app_bar, step).is_err());
    assert_eq!(app_bar.edge(), Edge::Bottom);
}

#[test]
fn position_changed_notification_proposes_a_monitor_edge_rect() {
    let mut api = MockAppBarApi::new(screen(), false);
    let mut app_bar = app_bar_for_test();
    let step =
        app_bar.handle_window_message(APP_BAR_CALLBACK_MESSAGE, ABN_POSCHANGED as usize, 0);
    assert!(api.handle(&mut app_bar, step).unwrap());
    assert_eq!(api.messages.len(), 2);
    assert_eq!(
        api.messages[0],
        (ABM_QUERYPOS, Rect { left: 0, top: 1050, right: 1920, bottom: 1080 })
    );
    assert_eq!(api.messages[1].0, ABM_SETPOS);
}

#[test]
fn proposed_rect_uses_the_selected_monitor_bounds() {
    let monitor = Rect { left: -2560, top: 100, right: 0, bottom: 1540 };
    assert_eq!(
        AppBar::proposed_rect(monitor, Edge::Bottom, 48),
        Rect { left: -2560, top: 1492, right: 0, bottom: 1540 }
    );
    assert_eq!(
        AppBar::proposed_rect(monitor, Edge::Left, 48),
        Rect { left: -2560, top: 100, right: -2512, bottom: 1540 }
    );
}

#[test]
fn failed_reposition_keeps_the_previous_configuration() {
    let mut api = MockAppBarApi::new(Rect::default(), true);
    let mut app_bar = app_bar_for_test();
    let step = app_bar.set_size(40);
    assert!(api.finish(&mut app_bar, step).is_err());
    assert_eq!(app_bar.size(), 30);
    let step = app_bar.set_edge(Edge::Left);
    assert!(api.finish(&mut app_bar, step).is_err());
    assert_eq!(app_bar.edge(), Edge::Bottom);
    let step = app_bar.set_monitor_index(1);
    assert!(matches!(
        api.finish(&mut app_bar, step),
        Err(AppBarError::MonitorNotFound { index: 1 })
    ));
    assert_eq!(app_bar.monitor_index(), 0);
}

#[test]
fn explicit_unregister_removes_a_registered_app_bar_once() {
    let mut api = MockAppBarApi::new(Rect::default(), false);
    let mut app_bar = app_bar_for_test();
    let step = app_bar.unregister();
    api.finish(&mut app_bar, step).unwrap();
    assert_eq!(api.messages.as_slice(), &[(ABM_REMOVE, Rect::default())]);
    assert!(!app_bar.is_registered());
}

#[test]
fn proposed_rect_covers_the_remaining_edges() {
    let monitor = Rect { left: -2560, top: 100, right: 0, bottom: 1540 };
    assert_eq!(
        AppBar::proposed_rect(monitor, Edge::Top, 48),
        Rect { left: -2560, top: 100, right: 0, bottom: 148 }
    );
    assert_eq!(
        AppBar::proposed_rect(monitor, Edge::Right, 48),
        Rect { left: -48, top: 100, right: 0, bottom: 1540 }
    );
}

#[test]
fn a_strip_that_no_rectangle_holds_is_noticed() {
    let rect = Rect { left: i32::MAX, top: 0, right: i32::MIN, bottom: 0 };
    assert!(!check_strip(&rect, Edge::Left, 1));
    assert!(!check_strip(&rect, Edge::Right, 1));
    assert!(check_strip(&rect, Edge::Top, 1));
    assert!(check_strip(&rect, Edge::Bottom, i32::MAX));
}

#[test]
fn edges_are_numbered_as_the_shell_numbers_them() {
    assert_eq!(Edge::Left.as_appbar_edge(), ABE_LEFT);
    assert_eq!(Edge::Top.as_appbar_edge(), ABE_TOP);
    assert_eq!(Edge::Right.as_appbar_edge(), ABE_RIGHT);
    assert_eq!(Edge::Bottom.as_appbar_edge(), ABE_BOTTOM);
    assert_eq!((ABE_LEFT, ABE_TOP, ABE_RIGHT, ABE_BOTTOM), (0, 1, 2, 3));
    assert_eq!(APP_BAR_CALLBACK_MESSAGE, 0x83a0);
}

#[test]
fn only_the_low_half_of_wparam_tells_the_notification() {
    assert!(is_position_change(1));
    assert!(is_position_change(0x7_0000_0001));
    assert!(!is_position_change(0));
    assert!(!is_position_change(0x1_0000_0000));
}

#[test]
fn positioning_moves_the_window_to_what_the_shell_made_of_it() {
    let mut api =
        MockAppBarApi::new(Rect { left: 100, top: 0, right: 1900, bottom: 1040 }, false);
    let mut app_bar = app_bar_for_test();
    let step = app_bar.set_size(50);
    api.finish(&mut app_bar, step).unwrap();
    assert_eq!(app_bar.size(), 50);
    assert_eq!(
        api.messages,
        vec![
            (ABM_QUERYPOS, Rect { left: 0, top: 1030, right: 1920, bottom: 1080 }),
            (ABM_SETPOS, Rect { left: 100, top: 990, right: 1900, bottom: 1040 }),
        ]
    );
    assert_eq!(api.placed, vec![Rect { left: 100, top: 990, right: 1900, bottom: 1040 }]);
    assert_eq!(api.data[0].edge, ABE_BOTTOM);
    assert_eq!(api.data[0].callback_message, APP_BAR_CALLBACK_MESSAGE);
}

#[test]
fn the_shell_hears_of_the_edge_that_is_being_taken() {
    let mut api = MockAppBarApi::new(screen(), false);
    let mut app_bar = app_bar_for_test();
    let step = app_bar.set_edge(Edge::Right);
    api.finish(&mut app_bar, step).unwrap();
    assert_eq!(app_bar.edge(), Edge::Right);
    assert_eq!(api.data[0].edge, ABE_RIGHT);
    assert_eq!(api.placed, vec![Rect { left: 1890, top: 0, right: 1920, bottom: 1080 }]);
}

#[test]
fn invalid_sizes_are_refused_without_a_call() {
    let mut api = MockAppBarApi::new(screen(), false);
    let mut app_bar = app_bar_for_test();
    for size in [0, 0x8000_0000, u32::MAX] {
        let step = app_bar.set_size(size);
        assert!(matches!(
            api.finish(&mut app_bar, step),
            Err(AppBarError::InvalidSize)
        ));
    }
    assert_eq!(app_bar.size(), 30);
    assert_eq!(api.requests, 0);
}

#[test]
fn the_largest_size_is_accepted_while_hidden() {
    let mut api = MockAppBarApi::new(screen(), false);
    let mut app_bar = hidden_app_bar_for_test();
    let step = app_bar.set_size(0x7fff_ffff);
    api.finish(&mut app_bar, step).unwrap();
    assert_eq!(app_bar.size(), 0x7fff_ffff);
    assert_eq!(api.requests, 0);
}

#[test]
fn a_hidden_app_bar_changes_without_positioning() {
    let mut api = MockAppBarApi::new(screen(), true);
    let mut app_bar = hidden_app_bar_for_test();
    let step = app_bar.set_edge(Edge::Top);
    api.finish(&mut app_bar, step).unwrap();
    assert_eq!(app_bar.edge(), Edge::Top);
    let step = app_bar.set_monitor_index(0);
    api.finish(&mut app_bar, step).unwrap();
    let step = app_bar.set_monitor_index(3);
    assert!(matches!(
        api.finish(&mut app_bar, step),
        Err(AppBarError::MonitorNotFound { index: 3 })
    ));
    assert!(api.messages.is_empty());
}

#[test]
fn registration_adds_and_positions_the_app_bar() {
    let mut api = MockAppBarApi::new(screen(), false);
    let (mut app_bar, step) = AppBar::register(win32_handle(77), 0, Edge::Bottom, 48).unwrap();
    assert!(!app_bar.is_registered());
    api.finish(&mut app_bar, step).unwrap();
    assert!(app_bar.is_registered());
    assert!(app_bar.is_visible());
    assert_eq!(app_bar.callback_message(), APP_BAR_CALLBACK_MESSAGE);
    assert_eq!(app_bar.hwnd, 77);
    assert_eq!(api.message_numbers(), vec![ABM_NEW, ABM_QUERYPOS, ABM_SETPOS]);
    assert_eq!(
        api.data[0],
        AppBarData {
            hwnd: 77,
            callback_message: APP_BAR_CALLBACK_MESSAGE,
            edge: ABE_BOTTOM,
            rect: Rect::default(),
            lparam: 0,
        }
    );
    assert!(api.shown.is_empty());
}

#[test]
fn registration_checks_the_size_before_the_window() {
    assert!(matches!(
        AppBar::register(win32_handle(0), 0, Edge::Bottom, 0),
        Err(AppBarError::InvalidSize)
    ));
    assert!(matches!(
        AppBar::register(win32_handle(0), 0, Edge::Bottom, 1),
        Err(AppBarError::WindowHandle(HandleError::Unavailable))
    ));
    assert!(matches!(
        AppBar::register(
            Ok(RawWindowHandle::Web(WebWindowHandle::new(0))),
            0,
            Edge::Bottom,
            1
        ),
        Err(AppBarError::NotAWin32Window)
    ));
}

#[test]
fn registration_on_a_missing_monitor_does_not_reach_the_shell() {
    let mut api = MockAppBarApi::new(screen(), false);
    let (mut app_bar, step) =
        AppBar::register_with_callback_message(win32_handle(5), 4, Edge::Left, 10, 0x9000)
            .unwrap();
    assert!(matches!(
        api.finish(&mut app_bar, step),
        Err(AppBarError::MonitorNotFound { index: 4 })
    ));
    assert!(api.messages.is_empty());
    assert_eq!(app_bar.callback_message(), 0x9000);
}

#[test]
fn rejected_registration_is_reported() {
    let mut api = MockAppBarApi::new(screen(), false);
    api.rejected.push(ABM_NEW);
    let (mut app_bar, step) =
        AppBar::register_window(Ok(5), 0, Edge::Left, 10, 0x9000).unwrap();
    assert!(matches!(
        api.finish(&mut app_bar, step),
        Err(AppBarError::ShellOperationFailed { operation: "registration" })
    ));
    assert!(!app_bar.is_registered());
    assert_eq!(api.message_numbers(), vec![ABM_NEW]);
}

#[test]
fn failed_positioning_rolls_the_registration_back() {
    let mut api = MockAppBarApi::new(screen(), true);
    let (mut app_bar, step) =
        AppBar::register_window(Ok(5), 0, Edge::Left, 10, 0x9000).unwrap();
    assert!(matches!(
        api.finish(&mut app_bar, step),
        Err(AppBarError::ShellOperationFailed { operation: "positioning" })
    ));
    assert!(!app_bar.is_registered());
    assert_eq!(
        api.message_numbers(),
        vec![ABM_NEW, ABM_QUERYPOS, ABM_SETPOS, ABM_REMOVE]
    );
}

#[test]
fn a_rejected_rollback_is_tried_once_more() {
    let mut api = MockAppBarApi::new(screen(), true);
    api.rejected.push(ABM_REMOVE);
    let (mut app_bar, step) =
        AppBar::register_window(Ok(5), 0, Edge::Left, 10, 0x9000).unwrap();
    assert!(matches!(
        api.finish(&mut app_bar, step),
        Err(AppBarError::ShellOperationFailed { operation: "positioning" })
    ));
    assert!(app_bar.is_registered());
    assert_eq!(
        api.message_numbers(),
        vec![ABM_NEW, ABM_QUERYPOS, ABM_SETPOS, ABM_REMOVE, ABM_REMOVE]
    );
}

#[test]
fn hide_then_show_gives_the_app_bar_back() {
    let mut api = MockAppBarApi::new(screen(), false);
    let mut app_bar = app_bar_for_test();
    let step = app_bar.hide_window();
    api.finish(&mut app_bar, step).unwrap();
    assert!(!app_bar.is_registered());
    assert_eq!(api.shown, vec![SW_HIDE]);
    let step = app_bar.show();
    api.finish(&mut app_bar, step).unwrap();
    assert!(app_bar.is_registered());
    assert_eq!(api.shown, vec![SW_HIDE, SW_SHOWNA]);
    assert_eq!(
        api.message_numbers(),
        vec![ABM_REMOVE, ABM_NEW, ABM_QUERYPOS, ABM_SETPOS]
    );
    assert_eq!((app_bar.size(), app_bar.edge(), app_bar.monitor_index()), (30, Edge::Bottom, 0));
}

#[test]
fn showing_a_registered_app_bar_only_shows_its_window() {
    let mut api = MockAppBarApi::new(screen(), true);
    let mut app_bar = app_bar_for_test();
    let step = app_bar.show();
    api.finish(&mut app_bar, step).unwrap();
    assert_eq!(api.requests, 1);
    assert_eq!(api.shown, vec![SW_SHOWNA]);
}

#[test]
fn failed_show_rolls_back_once_and_shows_nothing() {
    let mut api = MockAppBarApi::new(screen(), true);
    api.rejected.push(ABM_REMOVE);
    let mut app_bar = hidden_app_bar_for_test();
    let step = app_bar.show();
    assert!(api.finish(&mut app_bar, step).is_err());
    assert!(api.shown.is_empty());
    assert_eq!(
        api.message_numbers(),
        vec![ABM_NEW, ABM_QUERYPOS, ABM_SETPOS, ABM_REMOVE]
    );
}

#[test]
fn rejected_hide_leaves_the_window_alone() {
    let mut api = MockAppBarApi::new(screen(), false);
    api.rejected.push(ABM_REMOVE);
    let mut app_bar = app_bar_for_test();
    let step = app_bar.hide_window();
    assert!(matches!(
        api.finish(&mut app_bar, step),
        Err(AppBarError::ShellOperationFailed { operation: "removal" })
    ));
    assert!(app_bar.is_registered());
    assert!(api.shown.is_empty());
    assert_eq!(api.requests, 1);
}

#[test]
fn rejected_unregister_is_tried_once_more_and_reported() {
    let mut api = MockAppBarApi::new(screen(), false);
    api.rejected.push(ABM_REMOVE);
    let mut app_bar = app_bar_for_test();
    let step = app_bar.unregister();
    assert!(matches!(
        api.finish(&mut app_bar, step),
        Err(AppBarError::ShellOperationFailed { operation: "removal" })
    ));
    assert_eq!(api.message_numbers(), vec![ABM_REMOVE, ABM_REMOVE]);
}

#[test]
fn unregister_of_an_unregistered_app_bar_makes_no_call() {
    let mut api = MockAppBarApi::new(screen(), false);
    let mut app_bar = hidden_app_bar_for_test();
    let step = app_bar.unregister();
    api.finish(&mut app_bar, step).unwrap();
    assert_eq!(api.requests, 0);
}

#[test]
fn dropping_removes_a_registered_app_bar() {
    let mut api = MockAppBarApi::new(screen(), false);
    let mut app_bar = app_bar_for_test();
    let step = app_bar.drop();
    api.finish(&mut app_bar, step).unwrap();
    assert_eq!(api.message_numbers(), vec![ABM_REMOVE]);
    let step = app_bar.drop();
    api.finish(&mut app_bar, step).unwrap();
    assert_eq!(api.requests, 1);
}

#[test]
fn a_moved_window_is_reported_and_not_consumed() {
    let mut api = MockAppBarApi::new(screen(), false);
    let mut app_bar = app_bar_for_test();
    let step = app_bar.handle_window_message(WM_WINDOWPOSCHANGED, 0, 0);
    assert!(!api.handle(&mut app_bar, step).unwrap());
    assert_eq!(api.message_numbers(), vec![ABM_WINDOWPOSCHANGED]);

    let mut hidden = hidden_app_bar_for_test();
    let step = hidden.handle_window_message(WM_WINDOWPOSCHANGED, 0, 0);
    assert!(!api.handle(&mut hidden, step).unwrap());
    let step = hidden.handle_window_message(WM_DESTROY, 0, 0);
    assert!(!api.handle(&mut hidden, step).unwrap());
    let step = hidden.handle_window_message(APP_BAR_CALLBACK_MESSAGE, 1, 0);
    assert!(api.handle(&mut hidden, step).unwrap());
    assert_eq!(api.requests, 1);
}

#[test]
fn a_failed_repositioning_is_the_error_of_its_message() {
    let mut api = MockAppBarApi::new(screen(), true);
    let mut app_bar = app_bar_for_test();
    let step = app_bar.handle_window_message(APP_BAR_CALLBACK_MESSAGE, 1, 0);
    assert!(matches!(
        api.handle(&mut app_bar, step),
        Err(AppBarError::ShellOperationFailed { operation: "positioning" })
    ));
}

#[test]
fn replies_of_another_kind_or_size_are_not_accepted() {
    let mut app_bar = app_bar_for_test();
    let step = app_bar.set_edge(Edge::Left);
    let AppBarStep::Call { then, .. } = step else {
        panic!("a registered AppBar is positioned");
    };
    assert!(!then.accepts(&Reply::ShowWindow));
    assert!(!then.accepts(&Reply::MonitorRect(Ok(Rect {
        left: i32::MAX,
        top: 0,
        right: i32::MAX,
        bottom: 1
    }))));
    assert!(then.accepts(&Reply::MonitorRect(Ok(screen()))));
    assert!(then.accepts(&Reply::MonitorRect(Err(AppBarError::InvalidSize))));
}

#[test]
fn a_rejected_removal_is_asked_for_once_and_changes_nothing() {
    let mut api = MockAppBarApi::new(Rect::default(), false);
    api.rejected.push(ABM_REMOVE);
    let mut app_bar = app_bar_for_test();
    let step = app_bar.remove();
    assert!(matches!(
        api.finish(&mut app_bar, step),
        Err(AppBarError::ShellOperationFailed { operation: "removal" })
    ));
    assert_eq!(api.message_numbers(), vec![ABM_REMOVE]);
    assert!(app_bar.is_registered());
    assert_eq!(app_bar.edge(), Edge::Bottom);
    assert_eq!(app_bar.size(), 30);
}

#[test]
fn an_accepted_removal_is_asked_for_once() {
    let mut api = MockAppBarApi::new(Rect::default(), false);
    let mut app_bar = app_bar_for_test();
    let step = app_bar.remove();
    api.finish(&mut app_bar, step).unwrap();
    assert_eq!(api.message_numbers(), vec![ABM_REMOVE]);
    assert!(!app_bar.is_registered());
}
