//! A Shell AppBar and its operations.
//!
//! An operation of an [`AppBar`] talks to the desktop: it needs calls made and
//! goes on with what they return. Here such an operation is a sequence of
//! steps. Each step either asks for one call, in [`AppBarStep::Call`], or ends
//! the operation. Whoever runs the operation makes the call and hands its
//! outcome to [`AppBar::resume`], which gives the next step.

use vstd::pervasive::unreached;
use vstd::prelude::*;

use crate::error::AppBarError;
use crate::geometry::{check_strip, strip, strip_fits};
use crate::handle::{hwnd_from_window, window_of};
use crate::platform::{AppBarData, Reply, Request};
use crate::types::{Edge, Rect, APP_BAR_CALLBACK_MESSAGE};
use crate::win32::{
    is_position_change, notification_code, ABM_NEW, ABM_QUERYPOS, ABM_REMOVE, ABM_SETPOS,
    ABM_WINDOWPOSCHANGED, ABN_POSCHANGED, SW_HIDE, SW_SHOWNA, WM_WINDOWPOSCHANGED,
};

verus! {

/// A Windows Shell AppBar.
///
/// The AppBar does not own the window. The caller must ensure that its `HWND`
/// remains valid until this object is dropped or unregistered.
#[derive(Debug)]
pub struct AppBar {
    /// The owner window.
    pub hwnd: isize,
    /// The monitor, in enumeration order.
    pub monitor_index: usize,
    /// The edge of that monitor.
    pub edge: Edge,
    /// The thickness in physical pixels.
    pub size: i32,
    /// The message by which the Shell notifies the owner window.
    pub callback_message: u32,
    /// Whether the Shell holds a registration of this AppBar.
    pub registered: bool,
}

/// Where an AppBar is to be put.
#[derive(Debug, Clone, Copy, PartialEq, Eq, Structural)]
pub struct Target {
    pub monitor_index: usize,
    pub edge: Edge,
    pub size: i32,
}

/// The call of a positioning that is being waited for.
#[derive(Debug, Clone, Copy, PartialEq, Eq, Structural)]
pub enum PositionStage {
    /// The bounds of the monitor.
    Monitor,
    /// The Shell's adjustment of the proposed rectangle.
    Query,
    /// The Shell's note of the rectangle that is taken.
    Place,
    /// The move of the window.
    Move,
}

/// Why an AppBar is being added to the Shell.
#[derive(Debug, Clone, Copy, PartialEq, Eq, Structural)]
pub enum AddGoal {
    /// A new AppBar is being registered.
    Register,
    /// A hidden AppBar is being shown.
    Show,
}

/// Why a monitor index is being checked.
#[derive(Debug, Clone, Copy, PartialEq, Eq, Structural)]
pub enum CheckGoal {
    /// A new AppBar is being registered on it.
    Register,
    /// The AppBar is being moved to it.
    SetMonitorIndex,
}

/// Why an AppBar is being positioned.
#[derive(Debug, Clone, Copy, PartialEq, Eq, Structural)]
pub enum PositionGoal {
    SetSize,
    SetEdge,
    SetMonitorIndex,
    /// A notification of the Shell asks for it.
    Message,
    Add(AddGoal),
}

/// Why an AppBar is being removed from the Shell.
#[derive(Debug)]
pub enum RemoveGoal {
    Hide,
    /// The removal is all that is asked for.
    Remove,
    /// The AppBar is being given up.
    Release,
    /// The AppBar could not be positioned after it was added.
    Rollback { error: AppBarError, goal: AddGoal },
    /// The AppBar goes away while it is registered, after an operation with
    /// this result.
    Drop { result: Result<(), AppBarError> },
}

/// An operation of an [`AppBar`] that waits for the outcome of a call.
#[allow(inconsistent_fields)]
#[derive(Debug)]
pub enum AppBarOperation {
    /// Waits for the bounds of a monitor, to learn whether there is one.
    CheckMonitor { monitor_index: usize, goal: CheckGoal },
    /// Waits for the Shell to add the AppBar.
    New { goal: AddGoal },
    /// Waits for a call of a positioning.
    Position { target: Target, stage: PositionStage, goal: PositionGoal },
    /// Waits for the Shell to remove the AppBar.
    Remove { goal: RemoveGoal },
    /// Waits for the Shell to take note of a moved window.
    Notify,
    /// Waits for the window to be shown or hidden.
    Show,
}

/// What an operation does next.
#[derive(Debug)]
pub enum AppBarStep {
    /// Make the call, and give its outcome to [`AppBar::resume`] together with
    /// `then`.
    Call { request: Request, then: AppBarOperation },
    /// The operation has ended.
    Finished(Result<(), AppBarError>),
    /// The handling of a window message has ended; the flag says whether the
    /// message was consumed.
    Handled(Result<bool, AppBarError>),
}

/// The error of an AppBar message that the Shell rejected.
pub open spec fn rejected(operation: &'static str) -> AppBarError {
    AppBarError::ShellOperationFailed { operation }
}

/// Whether `size` is a thickness that an AppBar can have.
pub open spec fn valid_size(size: u32) -> bool {
    0 < size <= i32::MAX
}

/// Returns `size` as the thickness of an AppBar.
pub(crate) fn check_size(size: u32) -> (checked: Result<i32, AppBarError>)
    ensures
        checked == if valid_size(size) {
            Ok(size as i32)
        } else {
            Err(AppBarError::InvalidSize)
        },
{
    if size == 0 || size > 0x7fff_ffff {
        Err(AppBarError::InvalidSize)
    } else {
        Ok(size as i32)
    }
}

impl AppBarOperation {
    /// Whether `request` is the call that this operation waits for.
    pub open spec fn waits_on(self, request: Request) -> bool {
        match self {
            AppBarOperation::CheckMonitor { monitor_index, .. } => request
                == (Request::MonitorRect { index: monitor_index }),
            AppBarOperation::New { .. } => request.sends(ABM_NEW),
            AppBarOperation::Position { target, stage, .. } => match stage {
                PositionStage::Monitor => request == (Request::MonitorRect {
                    index: target.monitor_index,
                }),
                PositionStage::Query => request.sends(ABM_QUERYPOS),
                PositionStage::Place => request.sends(ABM_SETPOS),
                PositionStage::Move => request is SetWindowPos,
            },
            AppBarOperation::Remove { .. } => request.sends(ABM_REMOVE),
            AppBarOperation::Notify => request.sends(ABM_WINDOWPOSCHANGED),
            AppBarOperation::Show => request is ShowWindow,
        }
    }

    /// Whether `reply` is of the kind that this operation waits for.
    pub open spec fn expects(self, reply: Reply) -> bool {
        match self {
            AppBarOperation::CheckMonitor { .. } => reply is MonitorRect,
            AppBarOperation::New { .. } => reply is AppBarMessage,
            AppBarOperation::Position { stage, .. } => match stage {
                PositionStage::Monitor => reply is MonitorRect,
                PositionStage::Query => reply is AppBarMessage,
                PositionStage::Place => reply is AppBarMessage,
                PositionStage::Move => reply is SetWindowPos,
            },
            AppBarOperation::Remove { .. } => reply is AppBarMessage,
            AppBarOperation::Notify => reply is AppBarMessage,
            AppBarOperation::Show => reply is ShowWindow,
        }
    }

    /// Whether the operation can go on with `reply`: it is of the kind that the
    /// operation waits for, and the rectangle that the operation computes from
    /// it, if any, is one that a [`Rect`] can hold.
    pub open spec fn awaits(self, reply: Reply) -> bool {
        &&& self.expects(reply)
        &&& match (self, reply) {
            (
                AppBarOperation::Position { target, stage: PositionStage::Monitor, .. },
                Reply::MonitorRect(Ok(rect)),
            ) => strip_fits(rect, target.edge, target.size as int),
            (
                AppBarOperation::Position { target, stage: PositionStage::Query, .. },
                Reply::AppBarMessage { data, .. },
            ) => strip_fits(data.rect, target.edge, target.size as int),
            _ => true,
        }
    }

    /// Returns whether the operation can go on with `reply`.
    pub fn accepts(&self, reply: &Reply) -> (accepted: bool)
        ensures
            accepted == self.awaits(*reply),
    {
        match (self, reply) {
            (AppBarOperation::CheckMonitor { .. }, Reply::MonitorRect(_)) => true,
            (AppBarOperation::New { .. }, Reply::AppBarMessage { .. }) => true,
            (AppBarOperation::Position { target, stage, .. }, reply) => match (stage, reply) {
                (PositionStage::Monitor, Reply::MonitorRect(Ok(rect))) => check_strip(
                    rect,
                    target.edge,
                    target.size,
                ),
                (PositionStage::Monitor, Reply::MonitorRect(Err(_))) => true,
                (PositionStage::Query, Reply::AppBarMessage { data, .. }) => check_strip(
                    &data.rect,
                    target.edge,
                    target.size,
                ),
                (PositionStage::Place, Reply::AppBarMessage { .. }) => true,
                (PositionStage::Move, Reply::SetWindowPos(_)) => true,
                _ => false,
            },
            (AppBarOperation::Remove { .. }, Reply::AppBarMessage { .. }) => true,
            (AppBarOperation::Notify, Reply::AppBarMessage { .. }) => true,
            (AppBarOperation::Show, Reply::ShowWindow) => true,
            _ => false,
        }
    }

    /// Whether the operation is one that an AppBar starts.
    pub open spec fn wf(self) -> bool {
        self matches AppBarOperation::Position { target, .. } ==> target.size > 0
    }

    /// The number of calls that the operation makes at most, the one that it
    /// waits for included.
    pub open spec fn calls_left(self) -> nat {
        match self {
            AppBarOperation::CheckMonitor { goal: CheckGoal::Register, .. } => 8,
            AppBarOperation::CheckMonitor { goal: CheckGoal::SetMonitorIndex, .. } => 5,
            AppBarOperation::New { .. } => 7,
            AppBarOperation::Position { stage, goal, .. } => {
                let rollback: nat = if goal is Add {
                    2
                } else {
                    0
                };
                rollback + match stage {
                    PositionStage::Monitor => 4nat,
                    PositionStage::Query => 3nat,
                    PositionStage::Place => 2nat,
                    PositionStage::Move => 1nat,
                }
            },
            AppBarOperation::Remove { goal: RemoveGoal::Drop { .. } } => 1,
            AppBarOperation::Remove { goal: RemoveGoal::Remove } => 1,
            AppBarOperation::Remove { .. } => 2,
            AppBarOperation::Notify => 1,
            AppBarOperation::Show => 1,
        }
    }
}

impl AppBarStep {
    /// Whether the step is one that an operation of an AppBar takes: the
    /// operation goes on with the call that it requests.
    pub open spec fn wf(self) -> bool {
        self matches AppBarStep::Call { request, then } ==> then.wf() && then.waits_on(request)
    }

    /// The number of calls that the operation still makes at most.
    pub open spec fn calls_left(self) -> nat {
        match self {
            AppBarStep::Call { then, .. } => then.calls_left(),
            _ => 0,
        }
    }
}

impl AppBar {
    /// Whether the thickness is one that an AppBar can have.
    pub open spec fn wf(self) -> bool {
        self.size > 0
    }

    /// What the AppBar's messages about `edge` carry to the Shell.
    pub open spec fn message_data(self, edge: Edge) -> AppBarData {
        AppBarData {
            hwnd: self.hwnd,
            callback_message: self.callback_message,
            edge: edge.code(),
            rect: Rect::zero(),
            lparam: 0,
        }
    }

    /// Where the AppBar is put as it is configured.
    pub open spec fn target(self) -> Target {
        Target { monitor_index: self.monitor_index, edge: self.edge, size: self.size }
    }

    /// The step that sends `message` to the Shell.
    pub open spec fn sending(self, message: u32, then: AppBarOperation) -> AppBarStep {
        AppBarStep::Call {
            request: Request::AppBarMessage { message, data: self.message_data(self.edge) },
            then,
        }
    }

    /// The step that shows or hides the window.
    pub open spec fn showing(self, command: i32) -> AppBarStep {
        AppBarStep::Call {
            request: Request::ShowWindow { hwnd: self.hwnd, command },
            then: AppBarOperation::Show,
        }
    }

    /// The step that starts putting the AppBar at `target`.
    pub open spec fn positioning(self, target: Target, goal: PositionGoal) -> AppBarStep {
        AppBarStep::Call {
            request: Request::MonitorRect { index: target.monitor_index },
            then: AppBarOperation::Position { target, stage: PositionStage::Monitor, goal },
        }
    }

    /// The AppBar and the step once it has been put at `target`, or could not be.
    pub open spec fn positioned(
        self,
        target: Target,
        goal: PositionGoal,
        result: Result<(), AppBarError>,
    ) -> (AppBar, AppBarStep) {
        match (result, goal) {
            (Ok(()), PositionGoal::SetSize) => (
                AppBar { size: target.size, ..self },
                AppBarStep::Finished(Ok(())),
            ),
            (Ok(()), PositionGoal::SetEdge) => (
                AppBar { edge: target.edge, ..self },
                AppBarStep::Finished(Ok(())),
            ),
            (Ok(()), PositionGoal::SetMonitorIndex) => (
                AppBar { monitor_index: target.monitor_index, ..self },
                AppBarStep::Finished(Ok(())),
            ),
            (Ok(()), PositionGoal::Message) => (self, AppBarStep::Handled(Ok(true))),
            (Ok(()), PositionGoal::Add(AddGoal::Register)) => (
                self,
                AppBarStep::Finished(Ok(())),
            ),
            (Ok(()), PositionGoal::Add(AddGoal::Show)) => (self, self.showing(SW_SHOWNA)),
            (Err(error), PositionGoal::Message) => (self, AppBarStep::Handled(Err(error))),
            (Err(error), PositionGoal::Add(goal)) => (
                self,
                self.sending(
                    ABM_REMOVE,
                    AppBarOperation::Remove { goal: RemoveGoal::Rollback { error, goal } },
                ),
            ),
            (Err(error), _) => (self, AppBarStep::Finished(Err(error))),
        }
    }

    /// The step with which the AppBar goes away after an operation with `result`.
    pub open spec fn dropping(self, result: Result<(), AppBarError>) -> AppBarStep {
        if self.registered {
            self.sending(ABM_REMOVE, AppBarOperation::Remove { goal: RemoveGoal::Drop { result } })
        } else {
            AppBarStep::Finished(result)
        }
    }

    /// The AppBar and the step once the Shell has removed it, or rejected that.
    pub open spec fn removed(self, goal: RemoveGoal, accepted: bool) -> (AppBar, AppBarStep) {
        let bar = if accepted {
            AppBar { registered: false, ..self }
        } else {
            self
        };
        let result = if accepted {
            Ok::<(), AppBarError>(())
        } else {
            Err(rejected("removal"))
        };
        let step = match goal {
            RemoveGoal::Hide => if accepted {
                bar.showing(SW_HIDE)
            } else {
                AppBarStep::Finished(result)
            },
            RemoveGoal::Remove => AppBarStep::Finished(result),
            RemoveGoal::Release => bar.dropping(result),
            RemoveGoal::Rollback { error, goal: AddGoal::Register } => bar.dropping(Err(error)),
            RemoveGoal::Rollback { error, goal: AddGoal::Show } => AppBarStep::Finished(Err(error)),
            RemoveGoal::Drop { result } => AppBarStep::Finished(result),
        };
        (bar, step)
    }

    /// The AppBar and the step once the monitor bounds asked for are known.
    pub open spec fn checked(
        self,
        monitor_index: usize,
        goal: CheckGoal,
        bounds: Result<Rect, AppBarError>,
    ) -> (AppBar, AppBarStep) {
        match (bounds, goal) {
            (Err(error), _) => (self, AppBarStep::Finished(Err(error))),
            (Ok(_), CheckGoal::Register) => (
                self,
                self.sending(ABM_NEW, AppBarOperation::New { goal: AddGoal::Register }),
            ),
            (Ok(_), CheckGoal::SetMonitorIndex) => if self.registered {
                (
                    self,
                    self.positioning(
                        Target { monitor_index, ..self.target() },
                        PositionGoal::SetMonitorIndex,
                    ),
                )
            } else {
                (AppBar { monitor_index, ..self }, AppBarStep::Finished(Ok(())))
            },
        }
    }

    /// The AppBar and the step after a call of a positioning.
    pub open spec fn position_advanced(
        self,
        target: Target,
        stage: PositionStage,
        goal: PositionGoal,
        reply: Reply,
    ) -> (AppBar, AppBarStep) {
        let size = target.size as int;
        match (stage, reply) {
            (PositionStage::Monitor, Reply::MonitorRect(Ok(rect))) => (
                self,
                AppBarStep::Call {
                    request: Request::AppBarMessage {
                        message: ABM_QUERYPOS,
                        data: AppBarData {
                            rect: strip(rect, target.edge, size),
                            ..self.message_data(target.edge)
                        },
                    },
                    then: AppBarOperation::Position { target, stage: PositionStage::Query, goal },
                },
            ),
            (PositionStage::Monitor, Reply::MonitorRect(Err(error))) => self.positioned(
                target,
                goal,
                Err(error),
            ),
            (PositionStage::Query, Reply::AppBarMessage { data, .. }) => (
                self,
                AppBarStep::Call {
                    request: Request::AppBarMessage {
                        message: ABM_SETPOS,
                        data: AppBarData { rect: strip(data.rect, target.edge, size), ..data },
                    },
                    then: AppBarOperation::Position { target, stage: PositionStage::Place, goal },
                },
            ),
            (PositionStage::Place, Reply::AppBarMessage { data, .. }) => (
                self,
                AppBarStep::Call {
                    request: Request::SetWindowPos { hwnd: self.hwnd, rect: data.rect },
                    then: AppBarOperation::Position { target, stage: PositionStage::Move, goal },
                },
            ),
            (PositionStage::Move, Reply::SetWindowPos(result)) => self.positioned(
                target,
                goal,
                result,
            ),
            _ => arbitrary(),
        }
    }

    /// The AppBar and the step after the call that `operation` waits for.
    pub open spec fn after(self, operation: AppBarOperation, reply: Reply) -> (AppBar, AppBarStep) {
        match (operation, reply) {
            (
                AppBarOperation::CheckMonitor { monitor_index, goal },
                Reply::MonitorRect(bounds),
            ) => self.checked(monitor_index, goal, bounds),
            (AppBarOperation::New { goal }, Reply::AppBarMessage { result, .. }) => if result == 0 {
                (self, AppBarStep::Finished(Err(rejected("registration"))))
            } else {
                let bar = AppBar { registered: true, ..self };
                (bar, bar.positioning(bar.target(), PositionGoal::Add(goal)))
            },
            (AppBarOperation::Position { target, stage, goal }, reply) => self.position_advanced(
                target,
                stage,
                goal,
                reply,
            ),
            (AppBarOperation::Remove { goal }, Reply::AppBarMessage { result, .. }) => self.removed(
                goal,
                result != 0,
            ),
            (AppBarOperation::Notify, _) => (self, AppBarStep::Handled(Ok(false))),
            (AppBarOperation::Show, _) => (self, AppBarStep::Finished(Ok(()))),
            _ => arbitrary(),
        }
    }
}

impl AppBar {
    /// The AppBar for which registration starts.
    pub open spec fn unregistered(
        hwnd: isize,
        monitor_index: usize,
        edge: Edge,
        size: u32,
        callback_message: u32,
    ) -> AppBar {
        AppBar {
            hwnd,
            monitor_index,
            edge,
            size: size as i32,
            callback_message,
            registered: false,
        }
    }

    /// The first step of a registration, which looks for the monitor.
    pub open spec fn registering(self) -> AppBarStep {
        AppBarStep::Call {
            request: Request::MonitorRect { index: self.monitor_index },
            then: AppBarOperation::CheckMonitor {
                monitor_index: self.monitor_index,
                goal: CheckGoal::Register,
            },
        }
    }

    /// The AppBar and the first step of [`AppBar::set_size`].
    pub open spec fn setting_size(self, size: u32) -> (AppBar, AppBarStep) {
        if !valid_size(size) {
            (self, AppBarStep::Finished(Err(AppBarError::InvalidSize)))
        } else if self.registered {
            let target = Target { size: size as i32, ..self.target() };
            (self, self.positioning(target, PositionGoal::SetSize))
        } else {
            (AppBar { size: size as i32, ..self }, AppBarStep::Finished(Ok(())))
        }
    }

    /// The AppBar and the first step of [`AppBar::set_edge`].
    pub open spec fn setting_edge(self, edge: Edge) -> (AppBar, AppBarStep) {
        if self.registered {
            let target = Target { edge, ..self.target() };
            (self, self.positioning(target, PositionGoal::SetEdge))
        } else {
            (AppBar { edge, ..self }, AppBarStep::Finished(Ok(())))
        }
    }

    /// The first step of [`AppBar::set_monitor_index`].
    pub open spec fn setting_monitor_index(self, monitor_index: usize) -> AppBarStep {
        AppBarStep::Call {
            request: Request::MonitorRect { index: monitor_index },
            then: AppBarOperation::CheckMonitor { monitor_index, goal: CheckGoal::SetMonitorIndex },
        }
    }

    /// The first step of [`AppBar::show`].
    pub open spec fn starting_show(self) -> AppBarStep {
        if self.registered {
            self.showing(SW_SHOWNA)
        } else {
            self.sending(ABM_NEW, AppBarOperation::New { goal: AddGoal::Show })
        }
    }

    /// The first step of [`AppBar::hide_window`].
    pub open spec fn starting_hide(self) -> AppBarStep {
        if self.registered {
            self.sending(ABM_REMOVE, AppBarOperation::Remove { goal: RemoveGoal::Hide })
        } else {
            self.showing(SW_HIDE)
        }
    }

    /// The first step of [`AppBar::remove`].
    pub open spec fn removing(self) -> AppBarStep {
        self.sending(ABM_REMOVE, AppBarOperation::Remove { goal: RemoveGoal::Remove })
    }

    /// The first step with which the AppBar is removed and then dropped.
    pub open spec fn giving_up(self) -> AppBarStep {
        self.sending(ABM_REMOVE, AppBarOperation::Remove { goal: RemoveGoal::Release })
    }

    /// The first step of [`AppBar::unregister`].
    pub open spec fn unregistering(self) -> AppBarStep {
        if self.registered {
            self.giving_up()
        } else {
            AppBarStep::Finished(Ok(()))
        }
    }

    /// The first step of [`AppBar::handle_window_message`].
    pub open spec fn handling(self, message: u32, wparam: usize) -> AppBarStep {
        if message == self.callback_message {
            if notification_code(wparam) == ABN_POSCHANGED && self.registered {
                self.positioning(self.target(), PositionGoal::Message)
            } else {
                AppBarStep::Handled(Ok(true))
            }
        } else if message == WM_WINDOWPOSCHANGED && self.registered {
            self.sending(ABM_WINDOWPOSCHANGED, AppBarOperation::Notify)
        } else {
            AppBarStep::Handled(Ok(false))
        }
    }

    /// Registers the window behind `handle` as an AppBar on `monitor_index`
    /// using [`APP_BAR_CALLBACK_MESSAGE`] for Shell notifications.
    ///
    /// `monitor_index` is zero-based in [`crate::monitor::enumerate_monitors`]
    /// order. This only registers the AppBar and reserves its desktop work
    /// area; it does not make the window visible. Call [`Self::show`] when
    /// appropriate.
    ///
    /// Returns the AppBar with the first step of its registration. It is
    /// registered once the steps end with success; once they end with an error
    /// nothing is left to do with it.
    pub fn register(
        handle: Result<raw_window_handle::RawWindowHandle, raw_window_handle::HandleError>,
        monitor_index: usize,
        edge: Edge,
        size: u32,
    ) -> (started: Result<(AppBar, AppBarStep), AppBarError>)
        ensures
            !valid_size(size) ==> started == Err::<(AppBar, AppBarStep), _>(
                AppBarError::InvalidSize,
            ),
            valid_size(size) ==> started == match window_of(handle) {
                Err(error) => Err(error),
                Ok(hwnd) => {
                    let bar = AppBar::unregistered(
                        hwnd,
                        monitor_index,
                        edge,
                        size,
                        APP_BAR_CALLBACK_MESSAGE,
                    );
                    Ok((bar, bar.registering()))
                },
            },
            started matches Ok((bar, step)) ==> bar.wf() && step.wf(),
    {
        Self::register_with_callback_message(
            handle,
            monitor_index,
            edge,
            size,
            APP_BAR_CALLBACK_MESSAGE,
        )
    }

    /// Registers the window behind `handle` as an AppBar on `monitor_index`.
    ///
    /// `callback_message` must be forwarded from the owner window's message
    /// procedure to [`Self::handle_window_message`]. Pick a value which does
    /// not conflict with the host application's private window messages.
    pub fn register_with_callback_message(
        handle: Result<raw_window_handle::RawWindowHandle, raw_window_handle::HandleError>,
        monitor_index: usize,
        edge: Edge,
        size: u32,
        callback_message: u32,
    ) -> (started: Result<(AppBar, AppBarStep), AppBarError>)
        ensures
            !valid_size(size) ==> started == Err::<(AppBar, AppBarStep), _>(
                AppBarError::InvalidSize,
            ),
            valid_size(size) ==> started == match window_of(handle) {
                Err(error) => Err(error),
                Ok(hwnd) => {
                    let bar = AppBar::unregistered(
                        hwnd,
                        monitor_index,
                        edge,
                        size,
                        callback_message,
                    );
                    Ok((bar, bar.registering()))
                },
            },
            started matches Ok((bar, step)) ==> bar.wf() && step.wf(),
    {
        Self::register_window(
            hwnd_from_window(handle),
            monitor_index,
            edge,
            size,
            callback_message,
        )
    }

    /// Registers `window` as an AppBar on `monitor_index`, where `window` is what
    /// [`hwnd_from_window`] made of its handle.
    pub fn register_window(
        window: Result<isize, AppBarError>,
        monitor_index: usize,
        edge: Edge,
        size: u32,
        callback_message: u32,
    ) -> (started: Result<(AppBar, AppBarStep), AppBarError>)
        ensures
            !valid_size(size) ==> started == Err::<(AppBar, AppBarStep), _>(
                AppBarError::InvalidSize,
            ),
            valid_size(size) ==> started == match window {
                Err(error) => Err(error),
                Ok(hwnd) => {
                    let bar = AppBar::unregistered(
                        hwnd,
                        monitor_index,
                        edge,
                        size,
                        callback_message,
                    );
                    Ok((bar, bar.registering()))
                },
            },
            started matches Ok((bar, step)) ==> bar.wf() && step.wf(),
    {
        let size: i32 = match check_size(size) {
            Ok(size) => size,
            Err(error) => {
                return Err(error);
            },
        };
        match window {
            Ok(hwnd) => Ok(
                Self::begin_registration(hwnd, monitor_index, edge, size, callback_message),
            ),
            Err(error) => Err(error),
        }
    }

    /// Returns a new AppBar with the first step of its registration.
    ///
    /// An invalid monitor index is rejected before the Shell hears of the
    /// AppBar, so that this needs no rollback.
    pub(crate) fn begin_registration(
        hwnd: isize,
        monitor_index: usize,
        edge: Edge,
        size: i32,
        callback_message: u32,
    ) -> (started: (AppBar, AppBarStep))
        requires
            size > 0,
        ensures
            started.0 == AppBar::unregistered(
                hwnd,
                monitor_index,
                edge,
                size as u32,
                callback_message,
            ),
            started.1 == started.0.registering(),
            started.0.wf(),
            started.1.wf(),
    {
        let bar = AppBar { hwnd, monitor_index, edge, size, callback_message, registered: false };
        let step = AppBarStep::Call {
            request: Request::MonitorRect { index: monitor_index },
            then: AppBarOperation::CheckMonitor { monitor_index, goal: CheckGoal::Register },
        };
        (bar, step)
    }

    /// Returns the edge currently requested by this AppBar.
    pub fn edge(&self) -> (edge: Edge)
        ensures
            edge == self.edge,
    {
        self.edge
    }

    /// Returns the zero-based monitor index selected for this AppBar.
    pub fn monitor_index(&self) -> (monitor_index: usize)
        ensures
            monitor_index == self.monitor_index,
    {
        self.monitor_index
    }

    /// Returns this AppBar's requested thickness in physical pixels.
    pub fn size(&self) -> (size: u32)
        requires
            self.wf(),
        ensures
            size == self.size,
    {
        self.size as u32
    }

    /// Returns the Shell callback message registered for this AppBar.
    pub fn callback_message(&self) -> (message: u32)
        ensures
            message == self.callback_message,
    {
        self.callback_message
    }

    /// Returns whether this AppBar is currently registered with the Shell.
    ///
    /// This does not report the native window's visibility.
    pub fn is_registered(&self) -> (registered: bool)
        ensures
            registered == self.registered,
    {
        self.registered
    }

    /// Returns whether this AppBar currently reserves desktop work area.
    pub fn is_visible(&self) -> (visible: bool)
        ensures
            visible == self.registered,
    {
        self.registered
    }

    /// Changes the requested thickness and immediately repositions a
    /// registered AppBar.
    ///
    /// If repositioning fails, the previous thickness is retained.
    pub fn set_size(&mut self, size: u32) -> (step: AppBarStep)
        requires
            old(self).wf(),
        ensures
            (*final(self), step) == old(self).setting_size(size),
            final(self).wf(),
            step.wf(),
    {
        let size: i32 = match check_size(size) {
            Ok(size) => size,
            Err(error) => {
                return AppBarStep::Finished(Err(error));
            },
        };
        if self.registered {
            self.apply_position(self.edge, size, PositionGoal::SetSize)
        } else {
            self.size = size;
            AppBarStep::Finished(Ok(()))
        }
    }

    /// Changes the desktop edge and immediately repositions a registered
    /// AppBar.
    ///
    /// If repositioning fails, the previous edge is retained.
    pub fn set_edge(&mut self, edge: Edge) -> (step: AppBarStep)
        requires
            old(self).wf(),
        ensures
            (*final(self), step) == old(self).setting_edge(edge),
            final(self).wf(),
            step.wf(),
    {
        if self.registered {
            self.apply_position(edge, self.size, PositionGoal::SetEdge)
        } else {
            self.edge = edge;
            AppBarStep::Finished(Ok(()))
        }
    }

    /// Moves the AppBar to another monitor in
    /// [`crate::monitor::enumerate_monitors`] order.
    ///
    /// The index is checked even while the AppBar is hidden, so that a later
    /// [`Self::show`] cannot fail merely because of a stale index supplied
    /// here. If repositioning fails, the previous monitor index is retained.
    pub fn set_monitor_index(&mut self, monitor_index: usize) -> (step: AppBarStep)
        ensures
            *final(self) == *old(self),
            step == old(self).setting_monitor_index(monitor_index),
            step.wf(),
    {
        AppBarStep::Call {
            request: Request::MonitorRect { index: monitor_index },
            then: AppBarOperation::CheckMonitor { monitor_index, goal: CheckGoal::SetMonitorIndex },
        }
    }

    /// Registers this AppBar with the Shell if needed, then shows its native
    /// window without activating it.
    ///
    /// [`Self::is_registered`] reports the Shell registration state; it does
    /// not report whether the native window is visible.
    pub fn show(&mut self) -> (step: AppBarStep)
        ensures
            *final(self) == *old(self),
            step == old(self).starting_show(),
            step.wf(),
    {
        if self.registered {
            self.show_window(SW_SHOWNA)
        } else {
            self.add(AddGoal::Show)
        }
    }

    /// Hides its native window and releases its Shell AppBar registration.
    ///
    /// [`Self::is_registered`] reports the Shell registration state; it does
    /// not report whether the native window is visible.
    pub fn hide_window(&mut self) -> (step: AppBarStep)
        ensures
            *final(self) == *old(self),
            step == old(self).starting_hide(),
            step.wf(),
    {
        if self.registered {
            self.send(ABM_REMOVE, AppBarOperation::Remove { goal: RemoveGoal::Hide })
        } else {
            self.show_window(SW_HIDE)
        }
    }

    /// Explicitly removes the AppBar from the Shell.
    ///
    /// The AppBar is not to be used once the steps have ended. If the Shell
    /// rejects the removal it is tried a second time, as when a registered
    /// AppBar is dropped; the first rejection is reported.
    pub fn unregister(&mut self) -> (step: AppBarStep)
        ensures
            *final(self) == *old(self),
            step == old(self).unregistering(),
            step.wf(),
    {
        if self.registered {
            self.release()
        } else {
            AppBarStep::Finished(Ok(()))
        }
    }

    /// Removes the AppBar from the Shell, whether or not it is registered.
    ///
    /// The Shell is asked once. If it rejects the removal, the AppBar stays as
    /// it is.
    pub fn remove(&mut self) -> (step: AppBarStep)
        ensures
            *final(self) == *old(self),
            step == old(self).removing(),
            step.wf(),
    {
        self.send(ABM_REMOVE, AppBarOperation::Remove { goal: RemoveGoal::Remove })
    }

    /// Removes the AppBar from the Shell, whether or not it is registered, and
    /// drops it.
    pub(crate) fn release(&self) -> (step: AppBarStep)
        ensures
            step == self.giving_up(),
            step.wf(),
    {
        self.send(ABM_REMOVE, AppBarOperation::Remove { goal: RemoveGoal::Release })
    }

    /// Gives the AppBar up without a report: if it is registered, one attempt
    /// is made to remove it from the Shell.
    pub fn drop(&mut self) -> (step: AppBarStep)
        ensures
            *final(self) == *old(self),
            step == old(self).dropping(Ok(())),
            step.wf(),
    {
        self.dispose(Ok(()))
    }

    /// Handles a native window message for the AppBar's owner window.
    ///
    /// The steps end with `true` when the message was consumed. Forward the
    /// exact values received by the window procedure. `WM_WINDOWPOSCHANGED` is
    /// also observed so the Shell can update its work-area bookkeeping.
    pub fn handle_window_message(&mut self, message: u32, wparam: usize, _lparam: isize) -> (step:
        AppBarStep)
        requires
            old(self).wf(),
        ensures
            *final(self) == *old(self),
            step == old(self).handling(message, wparam),
            step.wf(),
    {
        if message == self.callback_message {
            if is_position_change(wparam) && self.registered {
                return self.apply_position(self.edge, self.size, PositionGoal::Message);
            }
            return AppBarStep::Handled(Ok(true));
        }
        if message == WM_WINDOWPOSCHANGED && self.registered {
            return self.notify_window_position_changed();
        }
        AppBarStep::Handled(Ok(false))
    }

    /// Goes on with `operation` after the call that it waited for.
    pub fn resume(&mut self, operation: AppBarOperation, reply: Reply) -> (step: AppBarStep)
        requires
            old(self).wf(),
            operation.wf(),
            operation.awaits(reply),
        ensures
            (*final(self), step) == old(self).after(operation, reply),
            final(self).wf(),
            step.wf(),
            step.calls_left() < operation.calls_left(),
    {
        match (operation, reply) {
            (
                AppBarOperation::CheckMonitor { monitor_index, goal },
                Reply::MonitorRect(bounds),
            ) => self.monitor_checked(monitor_index, goal, bounds),
            (AppBarOperation::New { goal }, Reply::AppBarMessage { result, .. }) => {
                if result == 0 {
                    AppBarStep::Finished(
                        Err(AppBarError::ShellOperationFailed { operation: "registration" }),
                    )
                } else {
                    self.registered = true;
                    self.apply_position(self.edge, self.size, PositionGoal::Add(goal))
                }
            },
            (AppBarOperation::Position { target, stage, goal }, reply) => self.advance_position(
                target,
                stage,
                goal,
                reply,
            ),
            (AppBarOperation::Remove { goal }, Reply::AppBarMessage { result, .. }) => {
                self.finish_remove(goal, result)
            },
            (AppBarOperation::Notify, _) => AppBarStep::Handled(Ok(false)),
            (AppBarOperation::Show, _) => AppBarStep::Finished(Ok(())),
            _ => unreached(),
        }
    }

    fn monitor_checked(
        &mut self,
        monitor_index: usize,
        goal: CheckGoal,
        bounds: Result<Rect, AppBarError>,
    ) -> (step: AppBarStep)
        requires
            old(self).wf(),
        ensures
            (*final(self), step) == old(self).checked(monitor_index, goal, bounds),
            final(self).wf(),
            step.wf(),
            step.calls_left() < (AppBarOperation::CheckMonitor { monitor_index, goal }).calls_left(),
    {
        match bounds {
            Err(error) => AppBarStep::Finished(Err(error)),
            Ok(_) => match goal {
                CheckGoal::Register => self.add(AddGoal::Register),
                CheckGoal::SetMonitorIndex => {
                    if self.registered {
                        let target = Target { monitor_index, edge: self.edge, size: self.size };
                        self.apply_position_for(target, PositionGoal::SetMonitorIndex)
                    } else {
                        self.monitor_index = monitor_index;
                        AppBarStep::Finished(Ok(()))
                    }
                },
            },
        }
    }

    fn add(&self, goal: AddGoal) -> (step: AppBarStep)
        ensures
            step == self.sending(ABM_NEW, AppBarOperation::New { goal }),
            step.wf(),
    {
        self.send(ABM_NEW, AppBarOperation::New { goal })
    }

    /// Ends a removal on which the Shell returned `result`.
    fn finish_remove(&mut self, goal: RemoveGoal, result: usize) -> (step: AppBarStep)
        requires
            old(self).wf(),
        ensures
            (*final(self), step) == old(self).removed(goal, result != 0),
            final(self).wf(),
            step.wf(),
            step.calls_left() < (AppBarOperation::Remove { goal }).calls_left(),
    {
        let outcome: Result<(), AppBarError> = if result == 0 {
            Err(AppBarError::ShellOperationFailed { operation: "removal" })
        } else {
            self.registered = false;
            Ok(())
        };
        match goal {
            RemoveGoal::Hide => {
                if result == 0 {
                    AppBarStep::Finished(outcome)
                } else {
                    self.show_window(SW_HIDE)
                }
            },
            RemoveGoal::Remove => AppBarStep::Finished(outcome),
            RemoveGoal::Release => self.dispose(outcome),
            RemoveGoal::Rollback { error, goal } => match goal {
                AddGoal::Register => self.dispose(Err(error)),
                AddGoal::Show => AppBarStep::Finished(Err(error)),
            },
            RemoveGoal::Drop { result } => AppBarStep::Finished(result),
        }
    }

    /// Gives the AppBar up after an operation with `result`.
    fn dispose(&self, result: Result<(), AppBarError>) -> (step: AppBarStep)
        ensures
            step == self.dropping(result),
            step.wf(),
    {
        if self.registered {
            self.send(ABM_REMOVE, AppBarOperation::Remove { goal: RemoveGoal::Drop { result } })
        } else {
            AppBarStep::Finished(result)
        }
    }

    fn apply_position(&self, edge: Edge, size: i32, goal: PositionGoal) -> (step: AppBarStep)
        requires
            size > 0,
        ensures
            step == self.positioning(
                Target { monitor_index: self.monitor_index, edge, size },
                goal,
            ),
            step.wf(),
    {
        self.apply_position_for(Target { monitor_index: self.monitor_index, edge, size }, goal)
    }

    fn apply_position_for(&self, target: Target, goal: PositionGoal) -> (step: AppBarStep)
        requires
            target.size > 0,
        ensures
            step == self.positioning(target, goal),
            step.wf(),
    {
        AppBarStep::Call {
            request: Request::MonitorRect { index: target.monitor_index },
            then: AppBarOperation::Position { target, stage: PositionStage::Monitor, goal },
        }
    }

    /// Goes on with a positioning after the call of `stage`.
    fn advance_position(
        &mut self,
        target: Target,
        stage: PositionStage,
        goal: PositionGoal,
        reply: Reply,
    ) -> (step: AppBarStep)
        requires
            old(self).wf(),
            (AppBarOperation::Position { target, stage, goal }).wf(),
            (AppBarOperation::Position { target, stage, goal }).awaits(reply),
        ensures
            (*final(self), step) == old(self).position_advanced(target, stage, goal, reply),
            final(self).wf(),
            step.wf(),
            step.calls_left() < (AppBarOperation::Position { target, stage, goal }).calls_left(),
    {
        match (stage, reply) {
            (PositionStage::Monitor, Reply::MonitorRect(Ok(bounds))) => {
                let mut data = self.data_for(target.edge);
                data.rect = Self::proposed_rect(bounds, target.edge, target.size);
                AppBarStep::Call {
                    request: Request::AppBarMessage { message: ABM_QUERYPOS, data },
                    then: AppBarOperation::Position { target, stage: PositionStage::Query, goal },
                }
            },
            (PositionStage::Monitor, Reply::MonitorRect(Err(error))) => self.finish_position(
                target,
                goal,
                Err(error),
            ),
            (PositionStage::Query, Reply::AppBarMessage { data, .. }) => {
                let mut data = data;
                let mut rect = data.rect;
                Self::apply_thickness(&mut rect, target.edge, target.size);
                data.rect = rect;
                AppBarStep::Call {
                    request: Request::AppBarMessage { message: ABM_SETPOS, data },
                    then: AppBarOperation::Position { target, stage: PositionStage::Place, goal },
                }
            },
            (PositionStage::Place, Reply::AppBarMessage { data, .. }) => {
                AppBarStep::Call {
                    request: Request::SetWindowPos { hwnd: self.hwnd, rect: data.rect },
                    then: AppBarOperation::Position { target, stage: PositionStage::Move, goal },
                }
            },
            (PositionStage::Move, Reply::SetWindowPos(result)) => self.finish_position(
                target,
                goal,
                result,
            ),
            _ => unreached(),
        }
    }

    /// Ends a positioning with `result`.
    fn finish_position(
        &mut self,
        target: Target,
        goal: PositionGoal,
        result: Result<(), AppBarError>,
    ) -> (step: AppBarStep)
        requires
            old(self).wf(),
            target.size > 0,
        ensures
            (*final(self), step) == old(self).positioned(target, goal, result),
            final(self).wf(),
            step.wf(),
            step.calls_left() <= if goal is Add {
                2int
            } else {
                0int
            },
    {
        match result {
            Ok(()) => match goal {
                PositionGoal::SetSize => {
                    self.size = target.size;
                    AppBarStep::Finished(Ok(()))
                },
                PositionGoal::SetEdge => {
                    self.edge = target.edge;
                    AppBarStep::Finished(Ok(()))
                },
                PositionGoal::SetMonitorIndex => {
                    self.monitor_index = target.monitor_index;
                    AppBarStep::Finished(Ok(()))
                },
                PositionGoal::Message => AppBarStep::Handled(Ok(true)),
                PositionGoal::Add(goal) => match goal {
                    AddGoal::Register => AppBarStep::Finished(Ok(())),
                    AddGoal::Show => self.show_window(SW_SHOWNA),
                },
            },
            Err(error) => match goal {
                PositionGoal::Message => AppBarStep::Handled(Err(error)),
                PositionGoal::Add(goal) => self.send(
                    ABM_REMOVE,
                    AppBarOperation::Remove { goal: RemoveGoal::Rollback { error, goal } },
                ),
                _ => AppBarStep::Finished(Err(error)),
            },
        }
    }

    fn notify_window_position_changed(&self) -> (step: AppBarStep)
        ensures
            step == self.sending(ABM_WINDOWPOSCHANGED, AppBarOperation::Notify),
            step.wf(),
    {
        self.send(ABM_WINDOWPOSCHANGED, AppBarOperation::Notify)
    }

    fn show_window(&self, command: i32) -> (step: AppBarStep)
        ensures
            step == self.showing(command),
            step.wf(),
    {
        AppBarStep::Call {
            request: Request::ShowWindow { hwnd: self.hwnd, command },
            then: AppBarOperation::Show,
        }
    }

    /// Sends `message` to the Shell on behalf of `then`.
    fn send(&self, message: u32, then: AppBarOperation) -> (step: AppBarStep)
        requires
            then.wf(),
            forall|request: Request| request.sends(message) ==> #[trigger] then.waits_on(request),
        ensures
            step == self.sending(message, then),
            step.wf(),
    {
        AppBarStep::Call { request: Request::AppBarMessage { message, data: self.data() }, then }
    }

    /// Returns what the AppBar's messages carry to the Shell.
    pub fn data(&self) -> (data: AppBarData)
        ensures
            data == self.message_data(self.edge),
    {
        self.data_for(self.edge)
    }

    /// Returns what the AppBar's messages about `edge` carry to the Shell.
    pub fn data_for(&self, edge: Edge) -> (data: AppBarData)
        ensures
            data == self.message_data(edge),
    {
        AppBarData {
            hwnd: self.hwnd,
            callback_message: self.callback_message,
            edge: edge.as_appbar_edge(),
            rect: Rect::default(),
            lparam: 0,
        }
    }

    /// Returns the rectangle that an AppBar proposes to take on a monitor: the
    /// strip of thickness `size` along `edge` of the monitor's bounds.
    pub fn proposed_rect(monitor: Rect, edge: Edge, size: i32) -> (rect: Rect)
        requires
            strip_fits(monitor, edge, size as int),
        ensures
            rect == strip(monitor, edge, size as int),
    {
        match edge {
            Edge::Left => Rect {
                left: monitor.left,
                top: monitor.top,
                right: monitor.left + size,
                bottom: monitor.bottom,
            },
            Edge::Top => Rect {
                left: monitor.left,
                top: monitor.top,
                right: monitor.right,
                bottom: monitor.top + size,
            },
            Edge::Right => Rect {
                left: monitor.right - size,
                top: monitor.top,
                right: monitor.right,
                bottom: monitor.bottom,
            },
            Edge::Bottom => Rect {
                left: monitor.left,
                top: monitor.bottom - size,
                right: monitor.right,
                bottom: monitor.bottom,
            },
        }
    }

    /// Gives `rect` the thickness `size`, measured from `edge`.
    pub fn apply_thickness(rect: &mut Rect, edge: Edge, size: i32)
        requires
            strip_fits(*old(rect), edge, size as int),
        ensures
            *final(rect) == strip(*old(rect), edge, size as int),
    {
        match edge {
            Edge::Left => {
                rect.right = rect.left + size;
            },
            Edge::Top => {
                rect.bottom = rect.top + size;
            },
            Edge::Right => {
                rect.left = rect.right - size;
            },
            Edge::Bottom => {
                rect.top = rect.bottom - size;
            },
        }
    }
}

} // verus!
