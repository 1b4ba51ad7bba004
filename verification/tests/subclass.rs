use std::num::NonZeroIsize;

use raw_window_handle::{HandleError, RawWindowHandle, Win32WindowHandle};
use windows_app_bar::lifecycle::{DetachGoal, Registration};
use windows_app_bar::mock::MockWindowSubclassApi;
use windows_app_bar::subclass::{SubclassMessageDispatch, WindowMessage};
use windows_app_bar::win32::{
    ABM_NEW, ABM_QUERYPOS, ABM_REMOVE, ABM_SETPOS, ABM_WINDOWPOSCHANGED, ABN_POSCHANGED,
    SW_HIDE, SW_SHOWNA, WM_DESTROY, WM_WINDOWPOSCHANGED,
};
use windows_app_bar::{
    hwnd_from_window, AppBar, AppBarCall, AppBarError, AppBarStep, Edge, Rect, Reply, Request,
    SubclassReply, SubclassRegistry, SubclassRequest, SubclassState, SubclassStep,
    SubclassedAppBar, APP_BAR_CALLBACK_MESSAGE,
};
use windows_result::{Error, HRESULT};

const WM_CLOSE: u32 = 0x0010;
const CALL_NEXT_RESULT: isize = 123;

fn failure() -> Error {
    Error::new(HRESULT(0x8000_4005u32 as i32), "mock window subclass failure")
}

fn screen() -> Rect {
    Rect { left: 0, top: 0, right: 1920, bottom: 1080 }
}

/// A desktop with one monitor, and with the messages that reach the window while
/// a call is being made.
struct Desktop {
    subclass: MockWindowSubclassApi,
    messages: Vec<(u32, Rect)>,
    shown: Vec<i32>,
    forwarded: Vec<WindowMessage>,
    query_response: Rect,
    fail_set_window_pos: bool,
    rejected: Vec<u32>,
    /// The message during which the window procedure is entered again, and with
    /// what.
    reentry: Option<(u32, isize, Vec<WindowMessage>)>,
    /// What the window answers when asked for its handle again.
    handle: Result<RawWindowHandle, HandleError>,
}

impl Desktop {
    fn new(subclass: MockWindowSubclassApi, query_response: Rect) -> Self {
        Self {
            subclass,
            messages: Vec::new(),
            shown: Vec::new(),
            forwarded: Vec::new(),
            query_response,
            fail_set_window_pos: false,
            rejected: Vec::new(),
            reentry: None,
            handle: win32_handle(42),
        }
    }

    fn app_bar_call(&mut self, registry: &mut SubclassRegistry, request: Request) -> Reply {
        match request {
            Request::AppBarMessage { message, mut data } => {
                self.messages.push((message, data.rect));
                if message == ABM_QUERYPOS {
                    data.rect = self.query_response;
                }
                if let Some((during, hwnd, entered)) = self.reentry.take() {
                    if during == message {
                        for entered in entered {
                            self.send(registry, hwnd, entered);
                        }
                    } else {
                        self.reentry = Some((during, hwnd, entered));
                    }
                }
                let result = if self.rejected.contains(&message) { 0 } else { 1 };
                Reply::AppBarMessage { result, data }
            }
            Request::SetWindowPos { .. } => {
                Reply::SetWindowPos(if self.fail_set_window_pos {
                    Err(AppBarError::ShellOperationFailed { operation: "positioning" })
                } else {
                    Ok(())
                })
            }
            Request::MonitorRect { index } => Reply::MonitorRect(if index == 0 {
                Ok(screen())
            } else {
                Err(AppBarError::MonitorNotFound { index })
            }),
            Request::ShowWindow { command, .. } => {
                self.shown.push(command);
                Reply::ShowWindow
            }
        }
    }

    fn answer(&mut self, registry: &mut SubclassRegistry, request: SubclassRequest) -> SubclassReply {
        match request {
            SubclassRequest::AppBar(request) => {
                SubclassReply::AppBar(self.app_bar_call(registry, request))
            }
            SubclassRequest::WindowHandle => {
                SubclassReply::WindowHandle(hwnd_from_window(self.handle.clone()))
            }
            SubclassRequest::Install { hwnd } => {
                SubclassReply::Install(self.subclass.install(hwnd, failure()))
            }
            SubclassRequest::Remove { hwnd } => {
                SubclassReply::Remove(self.subclass.remove(hwnd, failure()))
            }
            SubclassRequest::CallNext { hwnd, message } => {
                self.forwarded.push(message);
                SubclassReply::CallNext(self.subclass.call_next(hwnd, message))
            }
        }
    }

    fn run(&mut self, registry: &mut SubclassRegistry, step: SubclassStep) -> SubclassStep {
        let mut step = step;
        while let SubclassStep::Call { request, then } = step {
            let reply = self.answer(registry, request);
            assert!(then.accepts(&reply));
            step = registry.resume(then, reply);
        }
        step
    }

    fn finish(
        &mut self,
        registry: &mut SubclassRegistry,
        step: SubclassStep,
    ) -> Result<(), AppBarError> {
        match self.run(registry, step) {
            SubclassStep::Finished(result) => result,
            other => panic!("unexpected end of an operation: {other:?}"),
        }
    }

    fn register(
        &mut self,
        registry: &mut SubclassRegistry,
        step: SubclassStep,
    ) -> Result<SubclassedAppBar, AppBarError> {
        match self.run(registry, step) {
            SubclassStep::Registered(result) => result,
            other => panic!("unexpected end of a registration: {other:?}"),
        }
    }

    fn send(
        &mut self,
        registry: &mut SubclassRegistry,
        hwnd: isize,
        message: WindowMessage,
    ) -> isize {
        let step = registry.subclassed_app_bar_window_proc(
            hwnd,
            message.message,
            message.wparam,
            message.lparam,
        );
        match self.run(registry, step) {
            SubclassStep::Replied(result) => result,
            other => panic!("unexpected end of a message: {other:?}"),
        }
    }

    fn message_numbers(&self) -> Vec<u32> {
        self.messages.iter().map(|(message, _)| *message).collect()
    }
}

fn desktop() -> Desktop {
    Desktop::new(MockWindowSubclassApi::new(false, false), screen())
}

fn win32_handle(hwnd: isize) -> Result<RawWindowHandle, HandleError> {
    let hwnd = NonZeroIsize::new(hwnd).ok_or(HandleError::Unavailable)?;
    Ok(RawWindowHandle::Win32(Win32WindowHandle::new(hwnd)))
}

fn message(message: u32, wparam: usize) -> WindowMessage {
    WindowMessage { message, wparam, lparam: 0 }
}

fn app_bar_for_test() -> AppBar {
    AppBar {
        hwnd: 0,
        monitor_index: 0,
        edge: Edge::Bottom,
        size: 30,
        callback_message: APP_BAR_CALLBACK_MESSAGE,
        registered: true,
    }
}

fn subclass_state_for_test(app_bar: Option<AppBar>) -> SubclassState {
    SubclassState {
        app_bar,
        callback_message: APP_BAR_CALLBACK_MESSAGE,
        attached: true,
        operation_in_progress: false,
        pending_reposition: false,
        pending_window_position_changed: false,
    }
}

fn registered(desktop: &mut Desktop, registry: &mut SubclassRegistry) -> SubclassedAppBar {
    let step = SubclassedAppBar::register(registry, win32_handle(42), 0, Edge::Bottom, 48);
    desktop.register(registry, step).unwrap()
}

#[test]
fn subclass_installation_is_testable_without_a_real_window() {
    let registration = Registration {
        monitor_index: 0,
        edge: Edge::Bottom,
        size: 30,
        callback_message: APP_BAR_CALLBACK_MESSAGE,
    };

    let mut registry = SubclassRegistry::new();
    let mut success = Desktop::new(MockWindowSubclassApi::new(false, false), Rect::default());
    let step = SubclassedAppBar::register_window(&mut registry, Ok(0), registration);
    let SubclassStep::Call { request, then } = step else {
        panic!("the subclass is installed");
    };
    let reply = success.answer(&mut registry, request);
    assert!(matches!(reply, SubclassReply::Install(Ok(()))));
    assert!(matches!(
        registry.resume(then, reply),
        SubclassStep::Call { request: SubclassRequest::WindowHandle, .. }
    ));
    assert_eq!(success.subclass.calls, ["install"]);

    let mut registry = SubclassRegistry::new();
    let mut failure = Desktop::new(MockWindowSubclassApi::new(true, false), Rect::default());
    let step = SubclassedAppBar::register_window(&mut registry, Ok(0), registration);
    assert!(matches!(
        failure.register(&mut registry, step),
        Err(AppBarError::Windows(_))
    ));
    assert!(registry.state(0).is_none());
}

#[test]
fn duplicate_subclass_registration_keeps_the_original_state() {
    let mut registry = SubclassRegistry::new();
    let original = registry.reserve(0, subclass_state_for_test(None)).unwrap();
    assert!(matches!(
        registry.reserve(0, subclass_state_for_test(None)),
        Err(AppBarError::SubclassAlreadyRegistered)
    ));
    assert_eq!(registry.state(0), Some(original));
    registry.release_if_owned(0, original);
    assert_eq!(registry.state(0), None);
}

#[test]
fn registration_failure_removes_the_installed_subclass() {
    let mut registry = SubclassRegistry::new();
    let mut desktop = desktop();
    let state = registry.reserve(0, subclass_state_for_test(None)).unwrap();
    registry.borrow_mut(state).operation_in_progress = true;
    let step = registry.complete_subclass_registration(
        0,
        state,
        Err(AppBarError::ShellOperationFailed { operation: "registration" }),
    );
    assert!(matches!(
        desktop.register(&mut registry, step),
        Err(AppBarError::ShellOperationFailed { .. })
    ));
    assert_eq!(desktop.subclass.calls, ["remove"]);
    assert!(registry.state(0).is_none());
}

#[test]
fn registration_failure_preserves_both_errors_when_rollback_fails() {
    let mut registry = SubclassRegistry::new();
    let mut desktop = Desktop::new(MockWindowSubclassApi::new(false, true), screen());
    let state = registry.reserve(0, subclass_state_for_test(None)).unwrap();
    registry.borrow_mut(state).operation_in_progress = true;
    let step = registry.complete_subclass_registration(
        0,
        state,
        Err(AppBarError::ShellOperationFailed { operation: "registration" }),
    );
    let result = desktop.register(&mut registry, step);
    assert!(matches!(
        result,
        Err(AppBarError::SubclassRegistrationCleanup { registration_error, subclass_error })
            if matches!(
                *registration_error,
                AppBarError::ShellOperationFailed { operation: "registration" }
            ) && subclass_error == failure()
    ));
    assert!(registry.borrow(state).attached);
    assert!(!registry.borrow(state).operation_in_progress);
    registry.release_if_owned(0, state);
}

#[test]
fn dispatch_defers_reentrant_messages_and_forwards_others() {
    let mut registry = SubclassRegistry::new();
    let state = registry
        .reserve(0, subclass_state_for_test(Some(app_bar_for_test())))
        .unwrap();
    registry.borrow_mut(state).operation_in_progress = true;
    assert!(matches!(
        registry.dispatch_subclass_message(
            state,
            APP_BAR_CALLBACK_MESSAGE,
            ABN_POSCHANGED as usize
        ),
        SubclassMessageDispatch::Consume
    ));
    assert!(matches!(
        registry.dispatch_subclass_message(state, WM_WINDOWPOSCHANGED, 0),
        SubclassMessageDispatch::Forward
    ));
    assert!(registry.borrow(state).pending_reposition);
    assert!(registry.borrow(state).pending_window_position_changed);
}

#[test]
fn detach_keeps_state_when_subclass_removal_fails() {
    let mut registry = SubclassRegistry::new();
    let mut desktop = Desktop::new(MockWindowSubclassApi::new(false, true), screen());
    let state = registry.reserve(0, subclass_state_for_test(None)).unwrap();
    let step = registry.detach_subclass_state(0, DetachGoal::Unregister);
    assert!(matches!(
        desktop.finish(&mut registry, step),
        Err(AppBarError::Windows(_))
    ));
    assert!(registry.borrow(state).attached);
    assert_eq!(registry.state(0), Some(state));
    registry.release_if_owned(0, state);
}

#[test]
fn detach_removes_subclass_before_releasing_app_bar_state() {
    let mut registry = SubclassRegistry::new();
    let mut desktop = desktop();
    let state = registry
        .reserve(0, subclass_state_for_test(Some(app_bar_for_test())))
        .unwrap();
    let step = registry.detach_subclass_state(0, DetachGoal::Unregister);
    assert!(matches!(
        step,
        SubclassStep::Call { request: SubclassRequest::Remove { hwnd: 0 }, .. }
    ));
    desktop.finish(&mut registry, step).unwrap();
    assert_eq!(desktop.subclass.calls, ["remove"]);
    assert!(!registry.borrow(state).attached);
    assert!(registry.borrow(state).app_bar.is_none());
    assert!(registry.state(0).is_none());
    assert!(desktop.messages.iter().any(|(message, _)| *message == ABM_REMOVE));
}

#[test]
fn deferred_notifications_are_drained_after_an_operation() {
    let mut registry = SubclassRegistry::new();
    let mut desktop = desktop();
    let state = registry
        .reserve(0, subclass_state_for_test(Some(app_bar_for_test())))
        .unwrap();
    let app_bar = registry.begin_app_bar_operation(state).unwrap();
    registry.borrow_mut(state).pending_reposition = true;
    registry.borrow_mut(state).pending_window_position_changed = true;
    let step = registry.finish_app_bar_operation(state, app_bar);
    desktop.finish(&mut registry, step).unwrap();
    assert_eq!(
        desktop.message_numbers(),
        vec![ABM_QUERYPOS, ABM_SETPOS, ABM_WINDOWPOSCHANGED]
    );
}

#[test]
fn deferred_subclass_notifications_are_drained_after_an_operation() {
    let mut registry = SubclassRegistry::new();
    let mut desktop = desktop();
    let state = registry
        .reserve(0, subclass_state_for_test(Some(app_bar_for_test())))
        .unwrap();
    let app_bar = registry.begin_app_bar_operation(state).unwrap();
    registry.borrow_mut(state).pending_reposition = true;
    registry.borrow_mut(state).pending_window_position_changed = true;
    let step = registry.finish_app_bar_operation(state, app_bar);
    desktop.finish(&mut registry, step).unwrap();

    let value = registry.borrow(state);
    assert!(value.app_bar.is_some());
    assert!(!value.operation_in_progress);
    assert!(!value.pending_reposition);
    assert!(!value.pending_window_position_changed);

    assert_eq!(desktop.messages.len(), 3);
    assert_eq!(desktop.messages[0].0, ABM_QUERYPOS);
    assert_eq!(desktop.messages[1].0, ABM_SETPOS);
    assert_eq!(desktop.messages[2].0, ABM_WINDOWPOSCHANGED);
}

#[test]
fn lib_registration_time_callbacks_are_deferred_and_replayed() {
    let mut registry = SubclassRegistry::new();
    let mut desktop = desktop();
    let state = registry
        .reserve(0, SubclassState::registering(APP_BAR_CALLBACK_MESSAGE))
        .unwrap();
    assert_eq!(
        registry
            .borrow_mut(state)
            .defer_reentrant_message(APP_BAR_CALLBACK_MESSAGE, ABN_POSCHANGED as usize),
        Some(true)
    );
    assert_eq!(
        registry.borrow_mut(state).defer_reentrant_message(WM_WINDOWPOSCHANGED, 0),
        Some(false)
    );

    let step = registry.finish_app_bar_operation(state, app_bar_for_test());
    desktop.finish(&mut registry, step).unwrap();

    assert!(registry.borrow(state).app_bar.is_some());
    assert!(!registry.borrow(state).operation_in_progress);

    assert_eq!(desktop.messages.len(), 3);
    assert_eq!(desktop.messages[0].0, ABM_QUERYPOS);
    assert_eq!(desktop.messages[1].0, ABM_SETPOS);
    assert_eq!(desktop.messages[2].0, ABM_WINDOWPOSCHANGED);
}

#[test]
fn tests_registration_time_callbacks_are_deferred_and_replayed() {
    let mut registry = SubclassRegistry::new();
    let mut desktop = desktop();
    let state = registry.reserve(0, subclass_state_for_test(None)).unwrap();
    registry.borrow_mut(state).operation_in_progress = true;
    assert!(matches!(
        registry.dispatch_subclass_message(
            state,
            APP_BAR_CALLBACK_MESSAGE,
            ABN_POSCHANGED as usize
        ),
        SubclassMessageDispatch::Consume
    ));
    assert!(matches!(
        registry.dispatch_subclass_message(state, WM_WINDOWPOSCHANGED, 0),
        SubclassMessageDispatch::Forward
    ));
    let step = registry.finish_app_bar_operation(state, app_bar_for_test());
    desktop.finish(&mut registry, step).unwrap();
    assert_eq!(
        desktop.message_numbers(),
        vec![ABM_QUERYPOS, ABM_SETPOS, ABM_WINDOWPOSCHANGED]
    );
}

#[test]
fn subclassed_accessors_read_the_registered_app_bar() {
    let mut registry = SubclassRegistry::new();
    let state = registry
        .reserve(0, subclass_state_for_test(Some(app_bar_for_test())))
        .unwrap();
    let subclassed = SubclassedAppBar { hwnd: 0, state };
    assert_eq!(subclassed.edge(&registry), Edge::Bottom);
    assert_eq!(subclassed.size(&registry), 30);
    assert!(subclassed.is_registered(&registry));
    assert!(subclassed.is_visible(&registry));
    assert_eq!(subclassed.monitor_index(&registry), 0);
    assert_eq!(subclassed.callback_message(&registry), APP_BAR_CALLBACK_MESSAGE);
}

#[test]
fn registration_installs_the_subclass_and_then_registers_the_app_bar() {
    let mut registry = SubclassRegistry::new();
    let mut desktop = desktop();
    let app_bar = registered(&mut desktop, &mut registry);
    assert_eq!(app_bar.hwnd, 42);
    assert_eq!(desktop.subclass.calls, ["install"]);
    assert_eq!(desktop.message_numbers(), vec![ABM_NEW, ABM_QUERYPOS, ABM_SETPOS]);
    assert!(app_bar.is_registered(&registry));
    assert_eq!(app_bar.size(&registry), 48);
    assert_eq!(registry.state(42), Some(app_bar.state));
}

#[test]
fn a_window_is_not_registered_twice() {
    let mut registry = SubclassRegistry::new();
    let mut desktop = desktop();
    let first = registered(&mut desktop, &mut registry);
    let step = SubclassedAppBar::register(&mut registry, win32_handle(42), 0, Edge::Top, 10);
    assert!(matches!(
        desktop.register(&mut registry, step),
        Err(AppBarError::SubclassAlreadyRegistered)
    ));
    assert_eq!(registry.state(42), Some(first.state));
    assert_eq!(first.edge(&registry), Edge::Bottom);
    assert_eq!(desktop.subclass.calls, ["install"]);
}

#[test]
fn registration_without_a_window_does_nothing() {
    let mut registry = SubclassRegistry::new();
    let mut desktop = desktop();
    let step = SubclassedAppBar::register_window(
        &mut registry,
        Err(AppBarError::NotAWin32Window),
        Registration {
            monitor_index: 0,
            edge: Edge::Top,
            size: 0,
            callback_message: 0x9000,
        },
    );
    assert!(matches!(
        desktop.register(&mut registry, step),
        Err(AppBarError::NotAWin32Window)
    ));
    assert!(desktop.subclass.calls.is_empty());
}

#[test]
fn an_invalid_size_is_refused_after_the_subclass_is_installed() {
    let mut registry = SubclassRegistry::new();
    let mut desktop = desktop();
    let step = SubclassedAppBar::register(&mut registry, win32_handle(42), 0, Edge::Top, 0);
    assert!(matches!(
        desktop.register(&mut registry, step),
        Err(AppBarError::InvalidSize)
    ));
    assert_eq!(desktop.subclass.calls, ["install", "remove"]);
    assert!(desktop.messages.is_empty());
    assert!(registry.state(42).is_none());
}

#[test]
fn a_window_that_loses_its_handle_is_not_registered() {
    let mut registry = SubclassRegistry::new();
    let mut desktop = desktop();
    desktop.handle = win32_handle(0);
    let step = SubclassedAppBar::register(&mut registry, win32_handle(42), 0, Edge::Top, 10);
    assert!(matches!(
        desktop.register(&mut registry, step),
        Err(AppBarError::WindowHandle(HandleError::Unavailable))
    ));
    assert_eq!(desktop.subclass.calls, ["install", "remove"]);
}

#[test]
fn a_rejected_registration_detaches_the_window() {
    let mut registry = SubclassRegistry::new();
    let mut desktop = desktop();
    desktop.rejected.push(ABM_NEW);
    let step = SubclassedAppBar::register_with_callback_message(
        &mut registry,
        win32_handle(42),
        0,
        Edge::Top,
        10,
        0x9000,
    );
    assert!(matches!(
        desktop.register(&mut registry, step),
        Err(AppBarError::ShellOperationFailed { operation: "registration" })
    ));
    assert_eq!(desktop.subclass.calls, ["install", "remove"]);
    assert!(registry.state(42).is_none());
}

#[test]
fn notifications_during_registration_are_handled_before_it_ends() {
    let mut registry = SubclassRegistry::new();
    let mut desktop = desktop();
    desktop.reentry = Some((
        ABM_NEW,
        42,
        vec![
            message(APP_BAR_CALLBACK_MESSAGE, ABN_POSCHANGED as usize),
            message(WM_WINDOWPOSCHANGED, 0),
        ],
    ));
    let app_bar = registered(&mut desktop, &mut registry);
    assert_eq!(
        desktop.message_numbers(),
        vec![
            ABM_NEW,
            ABM_QUERYPOS,
            ABM_SETPOS,
            ABM_QUERYPOS,
            ABM_SETPOS,
            ABM_WINDOWPOSCHANGED
        ]
    );
    assert_eq!(desktop.forwarded, vec![message(WM_WINDOWPOSCHANGED, 0)]);
    assert!(app_bar.is_registered(&registry));
}

#[test]
fn notifications_during_a_change_are_handled_before_it_ends() {
    let mut registry = SubclassRegistry::new();
    let mut desktop = desktop();
    let app_bar = registered(&mut desktop, &mut registry);
    desktop.messages.clear();
    desktop.reentry = Some((
        ABM_SETPOS,
        42,
        vec![
            message(APP_BAR_CALLBACK_MESSAGE, ABN_POSCHANGED as usize),
            message(APP_BAR_CALLBACK_MESSAGE, ABN_POSCHANGED as usize),
        ],
    ));
    let step = app_bar.set_size(&mut registry, 60);
    desktop.finish(&mut registry, step).unwrap();
    assert_eq!(
        desktop.messages[2],
        (ABM_QUERYPOS, Rect { left: 0, top: 1020, right: 1920, bottom: 1080 })
    );
    assert_eq!(
        desktop.message_numbers(),
        vec![ABM_QUERYPOS, ABM_SETPOS, ABM_QUERYPOS, ABM_SETPOS]
    );
    assert_eq!(app_bar.size(&registry), 60);
    assert!(!registry.borrow(app_bar.state).operation_in_progress);
}

#[test]
fn notifications_that_arrive_while_others_are_handled_are_handled_too() {
    let mut registry = SubclassRegistry::new();
    let mut desktop = desktop();
    let app_bar = registered(&mut desktop, &mut registry);
    desktop.messages.clear();
    desktop.reentry = Some((
        ABM_WINDOWPOSCHANGED,
        42,
        vec![message(APP_BAR_CALLBACK_MESSAGE, ABN_POSCHANGED as usize)],
    ));
    registry.borrow_mut(app_bar.state).pending_window_position_changed = true;
    let step = app_bar.show(&mut registry);
    desktop.finish(&mut registry, step).unwrap();
    assert_eq!(desktop.shown, vec![SW_SHOWNA]);
    assert_eq!(
        desktop.message_numbers(),
        vec![ABM_WINDOWPOSCHANGED, ABM_QUERYPOS, ABM_SETPOS]
    );
}

#[test]
fn a_failed_change_keeps_its_error_and_the_configuration() {
    let mut registry = SubclassRegistry::new();
    let mut desktop = desktop();
    let app_bar = registered(&mut desktop, &mut registry);
    desktop.fail_set_window_pos = true;
    registry.borrow_mut(app_bar.state).pending_window_position_changed = true;
    let step = app_bar.set_edge(&mut registry, Edge::Left);
    assert!(matches!(
        desktop.finish(&mut registry, step),
        Err(AppBarError::ShellOperationFailed { operation: "positioning" })
    ));
    assert_eq!(app_bar.edge(&registry), Edge::Bottom);
    let step = app_bar.set_monitor_index(&mut registry, 2);
    assert!(matches!(
        desktop.finish(&mut registry, step),
        Err(AppBarError::MonitorNotFound { index: 2 })
    ));
    assert_eq!(app_bar.monitor_index(&registry), 0);
}

#[test]
fn a_subclassed_app_bar_is_hidden_and_shown() {
    let mut registry = SubclassRegistry::new();
    let mut desktop = desktop();
    let app_bar = registered(&mut desktop, &mut registry);
    let step = app_bar.hide_window(&mut registry);
    desktop.finish(&mut registry, step).unwrap();
    assert!(!app_bar.is_registered(&registry));
    let step = app_bar.with_app_bar(&mut registry, AppBarCall::Show);
    desktop.finish(&mut registry, step).unwrap();
    assert!(app_bar.is_registered(&registry));
    assert_eq!(desktop.shown, vec![SW_HIDE, SW_SHOWNA]);
}

#[test]
fn wm_close_is_forwarded_unchanged() {
    let mut registry = SubclassRegistry::new();
    let mut desktop = desktop();
    let app_bar = registered(&mut desktop, &mut registry);
    let close = WindowMessage { message: WM_CLOSE, wparam: 3, lparam: -4 };
    assert_eq!(desktop.send(&mut registry, 42, close), CALL_NEXT_RESULT);
    assert_eq!(desktop.forwarded, vec![close]);
    assert!(app_bar.is_registered(&registry));
}

#[test]
fn a_notification_is_consumed_and_handled() {
    let mut registry = SubclassRegistry::new();
    let mut desktop = desktop();
    registered(&mut desktop, &mut registry);
    desktop.messages.clear();
    let notification = message(APP_BAR_CALLBACK_MESSAGE, ABN_POSCHANGED as usize);
    assert_eq!(desktop.send(&mut registry, 42, notification), 0);
    assert_eq!(desktop.message_numbers(), vec![ABM_QUERYPOS, ABM_SETPOS]);
    assert!(desktop.forwarded.is_empty());
}

#[test]
fn a_notification_whose_handling_fails_is_forwarded() {
    let mut registry = SubclassRegistry::new();
    let mut desktop = desktop();
    registered(&mut desktop, &mut registry);
    desktop.fail_set_window_pos = true;
    let notification = message(APP_BAR_CALLBACK_MESSAGE, ABN_POSCHANGED as usize);
    assert_eq!(desktop.send(&mut registry, 42, notification), CALL_NEXT_RESULT);
    assert_eq!(desktop.forwarded, vec![notification]);
}

#[test]
fn a_message_to_an_unknown_window_is_forwarded() {
    let mut registry = SubclassRegistry::new();
    let mut desktop = desktop();
    let close = WindowMessage { message: WM_CLOSE, wparam: 3, lparam: -4 };
    assert_eq!(desktop.send(&mut registry, 7, close), CALL_NEXT_RESULT);
    assert_eq!(desktop.forwarded, vec![close]);
    let destroy = message(WM_DESTROY, 0);
    assert_eq!(desktop.send(&mut registry, 7, destroy), CALL_NEXT_RESULT);
    assert_eq!(desktop.forwarded, vec![close, destroy]);
    assert_eq!(desktop.subclass.calls, ["call_next", "call_next"]);
}

#[test]
fn only_late_notifications_are_kept_back_after_unregistering() {
    let mut registry = SubclassRegistry::new();
    let mut desktop = desktop();
    assert_eq!(registry.last_callback_message(42), None);
    let step = SubclassedAppBar::register_with_callback_message(
        &mut registry,
        win32_handle(42),
        0,
        Edge::Top,
        10,
        0x9000,
    );
    let app_bar = desktop.register(&mut registry, step).unwrap();
    let step = app_bar.unregister(&mut registry);
    desktop.finish(&mut registry, step).unwrap();
    desktop.messages.clear();
    assert_eq!(registry.state(42), None);
    assert_eq!(registry.last_callback_message(42), Some(0x9000));
    let late = message(0x9000, ABN_POSCHANGED as usize);
    assert_eq!(desktop.send(&mut registry, 42, late), 0);
    assert!(desktop.forwarded.is_empty());
    assert!(desktop.messages.is_empty());
    let close = message(WM_CLOSE, 0);
    assert_eq!(desktop.send(&mut registry, 42, close), CALL_NEXT_RESULT);
    let moved = message(WM_WINDOWPOSCHANGED, 0);
    assert_eq!(desktop.send(&mut registry, 42, moved), CALL_NEXT_RESULT);
    let other = message(APP_BAR_CALLBACK_MESSAGE, ABN_POSCHANGED as usize);
    assert_eq!(desktop.send(&mut registry, 42, other), CALL_NEXT_RESULT);
    assert_eq!(desktop.forwarded, vec![close, moved, other]);
}

#[test]
fn a_disturbed_registration_leaves_a_registered_app_bar() {
    let mut registry = SubclassRegistry::new();
    let mut desktop = desktop();
    desktop.reentry = Some((
        ABM_SETPOS,
        42,
        vec![
            message(WM_WINDOWPOSCHANGED, 0),
            message(APP_BAR_CALLBACK_MESSAGE, ABN_POSCHANGED as usize),
        ],
    ));
    let app_bar = registered(&mut desktop, &mut registry);
    assert_eq!(registry.state(42), Some(app_bar.state));
    let value = registry.borrow(app_bar.state);
    assert!(value.attached);
    assert!(!value.operation_in_progress);
    assert!(!value.pending_reposition);
    assert!(!value.pending_window_position_changed);
    let bar = value.app_bar.as_ref().unwrap();
    assert!(bar.registered);
    assert_eq!((bar.monitor_index, bar.edge, bar.size), (0, Edge::Bottom, 48));
    assert_eq!(bar.callback_message, APP_BAR_CALLBACK_MESSAGE);
}

#[test]
fn destruction_detaches_the_window_and_is_forwarded() {
    let mut registry = SubclassRegistry::new();
    let mut desktop = desktop();
    let app_bar = registered(&mut desktop, &mut registry);
    desktop.messages.clear();
    assert_eq!(desktop.send(&mut registry, 42, message(WM_DESTROY, 0)), CALL_NEXT_RESULT);
    assert_eq!(desktop.subclass.calls, ["install", "remove", "call_next"]);
    assert_eq!(desktop.message_numbers(), vec![ABM_REMOVE]);
    assert!(!registry.borrow(app_bar.state).attached);
    assert!(registry.borrow(app_bar.state).app_bar.is_none());
    let step = app_bar.drop(&mut registry);
    desktop.finish(&mut registry, step).unwrap();
    assert_eq!(desktop.message_numbers(), vec![ABM_REMOVE]);
}

#[test]
fn destruction_during_an_operation_lets_go_of_the_app_bar() {
    let mut registry = SubclassRegistry::new();
    let mut desktop = desktop();
    let app_bar = registered(&mut desktop, &mut registry);
    desktop.messages.clear();
    desktop.reentry = Some((
        ABM_SETPOS,
        42,
        vec![message(APP_BAR_CALLBACK_MESSAGE, 1), message(WM_DESTROY, 0)],
    ));
    let step = app_bar.set_size(&mut registry, 60);
    desktop.finish(&mut registry, step).unwrap();
    assert_eq!(
        desktop.message_numbers(),
        vec![ABM_QUERYPOS, ABM_SETPOS, ABM_QUERYPOS, ABM_SETPOS, ABM_REMOVE]
    );
    let value = registry.borrow(app_bar.state);
    assert!(!value.attached);
    assert!(value.app_bar.is_none());
    assert!(!value.operation_in_progress);
    assert!(registry.begin_app_bar_operation(app_bar.state).is_none());
}

#[test]
fn unregister_detaches_once_and_frees_the_window() {
    let mut registry = SubclassRegistry::new();
    let mut desktop = desktop();
    let app_bar = registered(&mut desktop, &mut registry);
    let step = app_bar.unregister(&mut registry);
    desktop.finish(&mut registry, step).unwrap();
    assert_eq!(desktop.subclass.calls, ["install", "remove"]);
    assert!(registry.state(42).is_none());
    let again = registered(&mut desktop, &mut registry);
    assert_ne!(again.state, app_bar.state);
}

#[test]
fn a_failed_unregister_is_tried_once_more_and_reported() {
    let mut registry = SubclassRegistry::new();
    let mut desktop = Desktop::new(MockWindowSubclassApi::new(false, true), screen());
    let app_bar = registered(&mut desktop, &mut registry);
    let step = app_bar.unregister(&mut registry);
    assert!(matches!(
        desktop.finish(&mut registry, step),
        Err(AppBarError::Windows(error)) if error == failure()
    ));
    assert_eq!(desktop.subclass.calls, ["install", "remove", "remove"]);
    assert!(app_bar.is_registered(&registry));
}

#[test]
fn a_rejected_removal_is_the_error_of_unregister() {
    let mut registry = SubclassRegistry::new();
    let mut desktop = desktop();
    let app_bar = registered(&mut desktop, &mut registry);
    desktop.rejected.push(ABM_REMOVE);
    desktop.messages.clear();
    let step = app_bar.unregister(&mut registry);
    assert!(matches!(
        desktop.finish(&mut registry, step),
        Err(AppBarError::ShellOperationFailed { operation: "removal" })
    ));
    assert_eq!(desktop.message_numbers(), vec![ABM_REMOVE, ABM_REMOVE]);
    assert!(registry.state(42).is_none());
}

#[test]
fn operations_are_not_nested() {
    let mut registry = SubclassRegistry::new();
    let state = registry
        .reserve(0, subclass_state_for_test(Some(app_bar_for_test())))
        .unwrap();
    assert!(registry.begin_app_bar_operation(state).is_some());
    assert!(registry.begin_app_bar_operation(state).is_none());
}

#[test]
fn a_slot_is_released_only_by_its_owner() {
    let mut registry = SubclassRegistry::new();
    let mut detached = subclass_state_for_test(None);
    detached.attached = false;
    let first = registry.reserve(1, detached).unwrap();
    let second = registry.reserve(1, subclass_state_for_test(None)).unwrap();
    registry.release_if_owned(1, first);
    assert_eq!(registry.state(1), Some(second));
    registry.release_if_owned(1, second);
    assert_eq!(registry.state(1), None);
}

#[test]
fn replies_of_another_kind_are_not_accepted() {
    let mut registry = SubclassRegistry::new();
    let step = SubclassedAppBar::register(&mut registry, win32_handle(42), 0, Edge::Top, 10);
    let SubclassStep::Call { then, .. } = step else {
        panic!("the subclass is installed");
    };
    assert!(!then.accepts(&SubclassReply::CallNext(0)));
    assert!(!then.accepts(&SubclassReply::Remove(Ok(()))));
    assert!(then.accepts(&SubclassReply::Install(Ok(()))));
}

#[test]
fn an_app_bar_handles_messages_of_its_own_after_a_manual_operation() {
    let mut registry = SubclassRegistry::new();
    let mut desktop = desktop();
    let app_bar = registered(&mut desktop, &mut registry);
    let mut taken = registry.begin_app_bar_operation(app_bar.state).unwrap();
    assert!(matches!(
        taken.handle_window_message(WM_CLOSE, 0, 0),
        AppBarStep::Handled(Ok(false))
    ));
    let step = registry.finish_app_bar_operation(app_bar.state, taken);
    desktop.finish(&mut registry, step).unwrap();
    assert!(app_bar.is_registered(&registry));
}

#[test]
fn an_undisturbed_registration_makes_eight_calls() {
    let mut registry = SubclassRegistry::new();
    let mut desktop = desktop();
    let mut step = SubclassedAppBar::register(&mut registry, win32_handle(42), 0, Edge::Top, 10);
    let mut calls = 0;
    while let SubclassStep::Call { request, then } = step {
        calls += 1;
        let reply = desktop.answer(&mut registry, request);
        step = registry.resume(then, reply);
    }
    assert!(matches!(step, SubclassStep::Registered(Ok(_))));
    assert_eq!(calls, 8);
}

#[test]
fn a_window_that_could_not_be_rolled_back_has_no_app_bar() {
    let mut registry = SubclassRegistry::new();
    let mut desktop = Desktop::new(MockWindowSubclassApi::new(false, true), screen());
    let step = SubclassedAppBar::register(&mut registry, win32_handle(42), 7, Edge::Top, 10);
    assert!(matches!(
        desktop.register(&mut registry, step),
        Err(AppBarError::SubclassRegistrationCleanup { registration_error, .. })
            if matches!(*registration_error, AppBarError::MonitorNotFound { index: 7 })
    ));
    let state = registry.state(42).unwrap();
    assert!(registry.borrow(state).is_attached());
    assert!(registry.begin_app_bar_operation(state).is_none());
    assert_eq!(desktop.send(&mut registry, 42, message(WM_CLOSE, 0)), CALL_NEXT_RESULT);
    let step = SubclassedAppBar::register(&mut registry, win32_handle(42), 0, Edge::Top, 10);
    assert!(matches!(
        desktop.register(&mut registry, step),
        Err(AppBarError::SubclassAlreadyRegistered)
    ));
}

#[test]
fn an_app_bar_that_is_given_back_is_at_hand_again() {
    let mut registry = SubclassRegistry::new();
    let mut desktop = desktop();
    let app_bar = registered(&mut desktop, &mut registry);
    desktop.messages.clear();
    let mut taken = registry.begin_app_bar_operation(app_bar.state).unwrap();
    assert!(registry.borrow(app_bar.state).app_bar.is_none());
    taken.size = 77;
    let step = registry.finish_app_bar_operation(app_bar.state, taken);
    assert!(matches!(step, SubclassStep::Finished(Ok(()))));
    assert_eq!(app_bar.size(&registry), 77);
    assert_eq!(app_bar.edge(&registry), Edge::Bottom);
    assert!(desktop.messages.is_empty());
}

#[test]
fn a_successful_registration_leaves_a_registered_app_bar() {
    let mut registry = SubclassRegistry::new();
    let mut desktop = desktop();
    let other = registered(&mut desktop, &mut registry);
    desktop.handle = win32_handle(43);
    let step = SubclassedAppBar::register_with_callback_message(
        &mut registry,
        win32_handle(43),
        0,
        Edge::Right,
        25,
        0x9000,
    );
    let app_bar = desktop.register(&mut registry, step).unwrap();
    assert_eq!((app_bar.hwnd, app_bar.state), (43, 1));
    assert_eq!(registry.state(43), Some(1));
    assert_eq!(registry.state(42), Some(other.state));
    let value = registry.borrow(app_bar.state);
    assert!(value.attached);
    assert!(!value.operation_in_progress);
    assert!(!value.pending_reposition);
    assert!(!value.pending_window_position_changed);
    assert_eq!(value.callback_message, 0x9000);
    let bar = value.app_bar.as_ref().unwrap();
    assert_eq!(bar.hwnd, 43);
    assert_eq!(bar.monitor_index, 0);
    assert_eq!(bar.edge, Edge::Right);
    assert_eq!(bar.size, 25);
    assert_eq!(bar.callback_message, 0x9000);
    assert!(bar.registered);
}

#[test]
fn notifications_are_answered_with_zero_unless_nothing_can_handle_them() {
    let mut registry = SubclassRegistry::new();
    let mut desktop = desktop();
    let app_bar = registered(&mut desktop, &mut registry);
    let other_notification = message(APP_BAR_CALLBACK_MESSAGE, 2);
    assert_eq!(desktop.send(&mut registry, 42, other_notification), 0);
    let step = app_bar.hide_window(&mut registry);
    desktop.finish(&mut registry, step).unwrap();
    let notification = message(APP_BAR_CALLBACK_MESSAGE, ABN_POSCHANGED as usize);
    assert_eq!(desktop.send(&mut registry, 42, notification), 0);
    assert!(desktop.forwarded.is_empty());
    assert_eq!(desktop.send(&mut registry, 7, notification), CALL_NEXT_RESULT);
    assert_eq!(desktop.forwarded, vec![notification]);
}
