//! The life of a [`SubclassedAppBar`], from its registration to its end.

use vstd::pervasive::unreached;
use vstd::prelude::*;

use crate::app_bar::{check_size, valid_size, AppBar, AppBarOperation, AppBarStep};
use crate::error::AppBarError;
use crate::handle::{hwnd_from_window, window_of};
use crate::platform::{Reply, Request};
use crate::subclass::{
    Registry, SubclassMessageDispatch, SubclassRegistry, SubclassState, SubclassedAppBar,
    WindowMessage,
};
use crate::types::{Edge, APP_BAR_CALLBACK_MESSAGE};
use crate::win32::{ABN_POSCHANGED, WM_DESTROY, WM_WINDOWPOSCHANGED};

verus! {

/// What a new [`SubclassedAppBar`] is to be registered with.
#[derive(Debug, Clone, Copy, PartialEq, Eq, Structural)]
pub struct Registration {
    pub monitor_index: usize,
    pub edge: Edge,
    pub size: u32,
    pub callback_message: u32,
}

/// A change of a registered AppBar.
#[derive(Debug, Clone, Copy, PartialEq, Eq, Structural)]
pub enum AppBarCall {
    SetSize(u32),
    SetEdge(Edge),
    SetMonitorIndex(usize),
    Show,
    Hide,
}

/// A call that a [`SubclassedAppBar`] needs made.
#[derive(Debug, Clone, Copy, PartialEq, Eq, Structural)]
pub enum SubclassRequest {
    /// A call for its AppBar.
    AppBar(Request),
    /// Ask the window that is being registered for its handle again, see
    /// [`hwnd_from_window`].
    WindowHandle,
    /// Install the subclass on the window.
    Install { hwnd: isize },
    /// Remove the subclass from the window.
    Remove { hwnd: isize },
    /// Pass the message on to the next procedure of the window.
    CallNext { hwnd: isize, message: WindowMessage },
}

/// The outcome of the call that a [`SubclassRequest`] asked for.
#[derive(Debug)]
pub enum SubclassReply {
    AppBar(Reply),
    WindowHandle(Result<isize, AppBarError>),
    Install(Result<(), windows_result::Error>),
    Remove(Result<(), windows_result::Error>),
    CallNext(isize),
}

/// What an AppBar runs an operation for.
#[derive(Debug, Clone, Copy, PartialEq, Eq, Structural)]
pub enum RunGoal {
    /// It is being registered for the window.
    Register { hwnd: isize },
    /// It is being changed.
    Operation,
    /// It handles a message of the window.
    Message { hwnd: isize, message: WindowMessage },
}

/// What remains once an operation has given its AppBar back.
#[derive(Debug)]
pub enum FinishGoal {
    Registered { hwnd: isize },
    Operation { result: Result<(), AppBarError> },
    Message { hwnd: isize, message: WindowMessage, consumed: bool },
}

/// Why a window is being detached.
#[derive(Debug)]
pub enum DetachGoal {
    /// The registration with this state failed.
    Rollback { state: usize, error: AppBarError },
    /// The AppBar is being unregistered.
    Unregister,
    /// The [`SubclassedAppBar`] goes away, after an operation with this result.
    Drop { result: Result<(), AppBarError> },
    /// The window is being destroyed, of which this message tells.
    Destroy { message: WindowMessage },
}

/// An operation that waits for the outcome of a call.
#[derive(Debug)]
#[allow(inconsistent_fields)]
pub enum SubclassOperation {
    /// Waits for the subclass to be installed.
    Install { hwnd: isize, state: usize, registration: Registration },
    /// Waits for the handle of the window that is being registered.
    Handle { hwnd: isize, state: usize, registration: Registration },
    /// Waits for a call of an operation of the AppBar.
    Run { state: usize, app_bar: AppBar, operation: AppBarOperation, goal: RunGoal },
    /// Waits for a call of the handling of a pending notification; `notify`
    /// says whether the Shell is to be told of a moved window after it.
    Drain {
        state: usize,
        app_bar: AppBar,
        operation: AppBarOperation,
        notify: bool,
        goal: FinishGoal,
    },
    /// Waits for the removal of an AppBar that could not be given back.
    Dispose { state: usize, app_bar: AppBar, operation: AppBarOperation, goal: FinishGoal },
    /// Waits for the subclass to be removed.
    Remove { hwnd: isize, state: usize, goal: DetachGoal },
    /// Waits for the removal of the AppBar of a detached window.
    Release { hwnd: isize, app_bar: AppBar, operation: AppBarOperation, goal: DetachGoal },
    /// Waits for the answer of the next procedure.
    CallNext,
}

/// What an operation does next.
#[derive(Debug)]
pub enum SubclassStep {
    /// Make the call, and give its outcome to [`SubclassRegistry::resume`]
    /// together with `then`.
    Call { request: SubclassRequest, then: SubclassOperation },
    /// The registration has ended.
    Registered(Result<SubclassedAppBar, AppBarError>),
    /// The operation has ended.
    Finished(Result<(), AppBarError>),
    /// The window procedure returns this.
    Replied(isize),
}

impl AppBarStep {
    /// How an operation of an AppBar ended that ended with this step.
    pub open spec fn outcome(self) -> Result<(), AppBarError> {
        match self {
            AppBarStep::Finished(result) => result,
            AppBarStep::Handled(Err(error)) => Err(error),
            _ => Ok(()),
        }
    }

    /// Whether a window message was consumed whose handling ended with this
    /// step; one whose handling failed was not.
    pub open spec fn consumed(self) -> bool {
        self == AppBarStep::Handled(Ok(true))
    }
}

impl DetachGoal {
    /// Whether the state is one of `count` states.
    pub open spec fn wf(self, count: nat) -> bool {
        self matches DetachGoal::Rollback { state, .. } ==> state < count
    }
}

impl SubclassOperation {
    /// Whether the operation is one that a registry of `count` states starts.
    pub open spec fn wf(self, count: nat) -> bool {
        match self {
            SubclassOperation::Install { state, .. } => state < count,
            SubclassOperation::Handle { state, registration, .. } => state < count && valid_size(
                registration.size,
            ),
            SubclassOperation::Run { state, app_bar, operation, .. } => {
                &&& state < count
                &&& app_bar.wf()
                &&& operation.wf()
            },
            SubclassOperation::Drain { state, app_bar, operation, .. } => {
                &&& state < count
                &&& app_bar.wf()
                &&& operation.wf()
            },
            SubclassOperation::Dispose { state, app_bar, operation, .. } => {
                &&& state < count
                &&& app_bar.wf()
                &&& operation.wf()
            },
            SubclassOperation::Remove { state, goal, .. } => state < count && goal.wf(count),
            SubclassOperation::Release { app_bar, operation, goal, .. } => {
                &&& app_bar.wf()
                &&& operation.wf()
                &&& goal.wf(count)
            },
            SubclassOperation::CallNext => true,
        }
    }

    /// Whether the AppBar that this operation has, or is to register, has the
    /// callback message of its state in `registry`.
    pub open spec fn consistent(self, registry: Registry) -> bool {
        match self {
            SubclassOperation::Install { state, registration, .. } => registration.callback_message
                == registry.states[state as int].callback_message,
            SubclassOperation::Handle { state, registration, .. } => registration.callback_message
                == registry.states[state as int].callback_message,
            SubclassOperation::Run { state, app_bar, .. } => registry.states[state as int].owns(
                app_bar,
            ),
            SubclassOperation::Drain { state, app_bar, .. } => registry.states[state as int].owns(
                app_bar,
            ),
            SubclassOperation::Dispose { state, app_bar, .. } => registry.states[state as int].owns(
                app_bar,
            ),
            _ => true,
        }
    }

    /// Whether `request` is the call that this operation waits for.
    pub open spec fn waits_on(self, request: SubclassRequest) -> bool {
        match self {
            SubclassOperation::Install { hwnd, .. } => request == (SubclassRequest::Install {
                hwnd,
            }),
            SubclassOperation::Handle { .. } => request is WindowHandle,
            SubclassOperation::Run { operation, .. } => request matches SubclassRequest::AppBar(r)
                && operation.waits_on(r),
            SubclassOperation::Drain { operation, .. } => request matches SubclassRequest::AppBar(r)
                && operation.waits_on(r),
            SubclassOperation::Dispose { operation, .. } => {
                request matches SubclassRequest::AppBar(r) && operation.waits_on(r)
            },
            SubclassOperation::Remove { hwnd, .. } => request == (SubclassRequest::Remove { hwnd }),
            SubclassOperation::Release { operation, .. } => {
                request matches SubclassRequest::AppBar(r) && operation.waits_on(r)
            },
            SubclassOperation::CallNext => request is CallNext,
        }
    }

    /// Whether the operation can go on with `reply`.
    pub open spec fn awaits(self, reply: SubclassReply) -> bool {
        match (self, reply) {
            (SubclassOperation::Install { .. }, SubclassReply::Install(_)) => true,
            (SubclassOperation::Handle { .. }, SubclassReply::WindowHandle(_)) => true,
            (SubclassOperation::Run { operation, .. }, SubclassReply::AppBar(r)) => {
                operation.awaits(r)
            },
            (SubclassOperation::Drain { operation, .. }, SubclassReply::AppBar(r)) => {
                operation.awaits(r)
            },
            (SubclassOperation::Dispose { operation, .. }, SubclassReply::AppBar(r)) => {
                operation.awaits(r)
            },
            (SubclassOperation::Remove { .. }, SubclassReply::Remove(_)) => true,
            (SubclassOperation::Release { operation, .. }, SubclassReply::AppBar(r)) => {
                operation.awaits(r)
            },
            (SubclassOperation::CallNext, SubclassReply::CallNext(_)) => true,
            _ => false,
        }
    }

    /// Returns whether the operation can go on with `reply`.
    pub fn accepts(&self, reply: &SubclassReply) -> (accepted: bool)
        ensures
            accepted == self.awaits(*reply),
    {
        match (self, reply) {
            (SubclassOperation::Install { .. }, SubclassReply::Install(_)) => true,
            (SubclassOperation::Handle { .. }, SubclassReply::WindowHandle(_)) => true,
            (SubclassOperation::Run { operation, .. }, SubclassReply::AppBar(r)) => {
                operation.accepts(r)
            },
            (SubclassOperation::Drain { operation, .. }, SubclassReply::AppBar(r)) => {
                operation.accepts(r)
            },
            (SubclassOperation::Dispose { operation, .. }, SubclassReply::AppBar(r)) => {
                operation.accepts(r)
            },
            (SubclassOperation::Remove { .. }, SubclassReply::Remove(_)) => true,
            (SubclassOperation::Release { operation, .. }, SubclassReply::AppBar(r)) => {
                operation.accepts(r)
            },
            (SubclassOperation::CallNext, SubclassReply::CallNext(_)) => true,
            _ => false,
        }
    }
}

impl SubclassStep {
    /// Whether the step is one that an operation of a registry of `count`
    /// states takes: it goes on with the call that it requests.
    pub open spec fn wf(self, count: nat) -> bool {
        match self {
            SubclassStep::Call { request, then } => then.wf(count) && then.waits_on(request),
            SubclassStep::Registered(Ok(app_bar)) => app_bar.state < count,
            _ => true,
        }
    }

    /// Whether the operation that goes on from this step, if one does, is
    /// consistent with `registry`.
    pub open spec fn consistent(self, registry: Registry) -> bool {
        self matches SubclassStep::Call { then, .. } ==> then.consistent(registry)
    }

    /// The step that passes a message on to the next procedure.
    pub open spec fn forwarding(hwnd: isize, message: WindowMessage) -> SubclassStep {
        SubclassStep::Call {
            request: SubclassRequest::CallNext { hwnd, message },
            then: SubclassOperation::CallNext,
        }
    }

    /// The step once an operation has given its AppBar back.
    pub open spec fn finishing(state: usize, goal: FinishGoal) -> SubclassStep {
        match goal {
            FinishGoal::Registered { hwnd } => SubclassStep::Registered(
                Ok(SubclassedAppBar { hwnd, state }),
            ),
            FinishGoal::Operation { result } => SubclassStep::Finished(result),
            FinishGoal::Message { hwnd, message, consumed } => if consumed {
                SubclassStep::Replied(0)
            } else {
                SubclassStep::forwarding(hwnd, message)
            },
        }
    }
}

impl Registry {
    /// The operation gives `app_bar` back to its state, or lets go of it if the
    /// window has been detached.
    pub open spec fn settled(self, state: usize, app_bar: AppBar, goal: FinishGoal) -> (
        Registry,
        SubclassStep,
    ) {
        let value = self.states[state as int];
        let registry = self.with_state(state, value.returned(app_bar));
        if value.attached {
            (registry, SubclassStep::finishing(state, goal))
        } else {
            (registry, registry.disposed(state, app_bar, app_bar.dropping(Ok(())), goal))
        }
    }

    /// The step once the AppBar that could not be given back is at `step` of
    /// its removal.
    pub open spec fn disposed(
        self,
        state: usize,
        app_bar: AppBar,
        step: AppBarStep,
        goal: FinishGoal,
    ) -> SubclassStep {
        match step {
            AppBarStep::Call { request, then } => SubclassStep::Call {
                request: SubclassRequest::AppBar(request),
                then: SubclassOperation::Dispose { state, app_bar, operation: then, goal },
            },
            _ => SubclassStep::finishing(state, goal),
        }
    }

    /// The operation takes what is pending and lets `app_bar` handle it: first
    /// a repositioning, then the news of a moved window. When nothing is
    /// pending, the operation gives the AppBar back.
    pub open spec fn drained(self, state: usize, app_bar: AppBar, goal: FinishGoal) -> (
        Registry,
        SubclassStep,
    ) {
        let value = self.states[state as int];
        let registry = self.with_state(state, value.nothing_pending());
        let notify = value.pending_window_position_changed;
        let reposition = app_bar.handling(value.callback_message, ABN_POSCHANGED as usize);
        let position = app_bar.handling(WM_WINDOWPOSCHANGED, 0);
        if value.pending_reposition && reposition is Call {
            (
                registry,
                SubclassStep::Call {
                    request: SubclassRequest::AppBar(reposition->request),
                    then: SubclassOperation::Drain {
                        state,
                        app_bar,
                        operation: reposition->then,
                        notify,
                        goal,
                    },
                },
            )
        } else if notify && position is Call {
            (
                registry,
                SubclassStep::Call {
                    request: SubclassRequest::AppBar(position->request),
                    then: SubclassOperation::Drain {
                        state,
                        app_bar,
                        operation: position->then,
                        notify: false,
                        goal,
                    },
                },
            )
        } else {
            registry.settled(state, app_bar, goal)
        }
    }

    /// The operation goes on after `app_bar` has come to `step` in handling
    /// something that was pending.
    pub open spec fn drain_advanced(
        self,
        state: usize,
        app_bar: AppBar,
        step: AppBarStep,
        notify: bool,
        goal: FinishGoal,
    ) -> (Registry, SubclassStep) {
        let position = app_bar.handling(WM_WINDOWPOSCHANGED, 0);
        match step {
            AppBarStep::Call { request, then } => (
                self,
                SubclassStep::Call {
                    request: SubclassRequest::AppBar(request),
                    then: SubclassOperation::Drain {
                        state,
                        app_bar,
                        operation: then,
                        notify,
                        goal,
                    },
                },
            ),
            _ => if notify && position is Call {
                (
                    self,
                    SubclassStep::Call {
                        request: SubclassRequest::AppBar(position->request),
                        then: SubclassOperation::Drain {
                            state,
                            app_bar,
                            operation: position->then,
                            notify: false,
                            goal,
                        },
                    },
                )
            } else {
                self.drained(state, app_bar, goal)
            },
        }
    }

    /// The step that detaches the window, if it is attached.
    pub open spec fn removing_subclass(self, hwnd: isize, goal: DetachGoal) -> SubclassStep {
        SubclassStep::Call {
            request: SubclassRequest::Remove { hwnd },
            then: SubclassOperation::Remove { hwnd, state: self.slots[hwnd], goal },
        }
    }

    /// The step with which a [`SubclassedAppBar`] goes away after an operation
    /// with `result`.
    pub open spec fn dropping(self, hwnd: isize, result: Result<(), AppBarError>) -> SubclassStep {
        if self.occupied(hwnd) {
            self.removing_subclass(hwnd, DetachGoal::Drop { result })
        } else {
            SubclassStep::Finished(result)
        }
    }

    /// The registry and the step once the window has been detached, or could
    /// not be.
    pub open spec fn detach_ended(
        self,
        hwnd: isize,
        goal: DetachGoal,
        result: Result<(), AppBarError>,
    ) -> (Registry, SubclassStep) {
        match goal {
            DetachGoal::Rollback { state, error } => match result {
                Ok(()) => (self, SubclassStep::Registered(Err(error))),
                Err(AppBarError::Windows(subclass_error)) => {
                    let value = self.states[state as int];
                    let aborted = SubclassState {
                        operation_in_progress: false,
                        ..value.nothing_pending()
                    };
                    (
                        self.with_state(state, aborted),
                        SubclassStep::Registered(
                            Err(
                                AppBarError::SubclassRegistrationCleanup {
                                    registration_error: Box::new(error),
                                    subclass_error,
                                },
                            ),
                        ),
                    )
                },
                Err(rollback_error) => (self, SubclassStep::Registered(Err(rollback_error))),
            },
            DetachGoal::Unregister => (self, self.dropping(hwnd, result)),
            DetachGoal::Drop { result } => (self, SubclassStep::Finished(result)),
            DetachGoal::Destroy { message } => (self, SubclassStep::forwarding(hwnd, message)),
        }
    }

    /// The registry and the step with which detaching the window starts.
    pub open spec fn detaching(self, hwnd: isize, goal: DetachGoal) -> (Registry, SubclassStep) {
        if self.occupied(hwnd) {
            (self, self.removing_subclass(hwnd, goal))
        } else {
            self.detach_ended(hwnd, goal, Ok(()))
        }
    }

    /// The registry and the step once the subclass of the window with `state`
    /// has been removed, or could not be.
    pub open spec fn subclass_removed(
        self,
        hwnd: isize,
        state: usize,
        goal: DetachGoal,
        result: Result<(), windows_result::Error>,
    ) -> (Registry, SubclassStep) {
        match result {
            Err(error) => self.detach_ended(hwnd, goal, Err(AppBarError::Windows(error))),
            Ok(()) => {
                let value = self.states[state as int];
                let registry = self.releasing(hwnd, state).with_state(state, value.detached());
                match value.app_bar {
                    Some(app_bar) => registry.released(hwnd, app_bar, app_bar.giving_up(), goal),
                    None => registry.detach_ended(hwnd, goal, Ok(())),
                }
            },
        }
    }

    /// The registry and the step once the AppBar of a detached window is at
    /// `step` of its removal.
    pub open spec fn released(
        self,
        hwnd: isize,
        app_bar: AppBar,
        step: AppBarStep,
        goal: DetachGoal,
    ) -> (Registry, SubclassStep) {
        match step {
            AppBarStep::Call { request, then } => (
                self,
                SubclassStep::Call {
                    request: SubclassRequest::AppBar(request),
                    then: SubclassOperation::Release { hwnd, app_bar, operation: then, goal },
                },
            ),
            _ => self.detach_ended(hwnd, goal, step.outcome()),
        }
    }

    /// The registry and the step once `app_bar` is at `step` of an operation.
    pub open spec fn run_advanced(
        self,
        state: usize,
        app_bar: AppBar,
        step: AppBarStep,
        goal: RunGoal,
    ) -> (Registry, SubclassStep) {
        match step {
            AppBarStep::Call { request, then } => (
                self,
                SubclassStep::Call {
                    request: SubclassRequest::AppBar(request),
                    then: SubclassOperation::Run { state, app_bar, operation: then, goal },
                },
            ),
            _ => match goal {
                RunGoal::Register { hwnd } => match step.outcome() {
                    Ok(()) => self.drained(state, app_bar, FinishGoal::Registered { hwnd }),
                    Err(error) => self.detaching(hwnd, DetachGoal::Rollback { state, error }),
                },
                RunGoal::Operation => self.drained(
                    state,
                    app_bar,
                    FinishGoal::Operation { result: step.outcome() },
                ),
                RunGoal::Message { hwnd, message } => self.drained(
                    state,
                    app_bar,
                    FinishGoal::Message { hwnd, message, consumed: step.consumed() },
                ),
            },
        }
    }

    /// The registry and the step once the subclass has been installed on the
    /// window, or could not be.
    pub open spec fn subclass_installed(
        self,
        hwnd: isize,
        state: usize,
        registration: Registration,
        result: Result<(), windows_result::Error>,
    ) -> (Registry, SubclassStep) {
        match result {
            Err(error) => (
                self.releasing(hwnd, state),
                SubclassStep::Registered(Err(AppBarError::Windows(error))),
            ),
            Ok(()) => if valid_size(registration.size) {
                (
                    self,
                    SubclassStep::Call {
                        request: SubclassRequest::WindowHandle,
                        then: SubclassOperation::Handle { hwnd, state, registration },
                    },
                )
            } else {
                self.detaching(
                    hwnd,
                    DetachGoal::Rollback { state, error: AppBarError::InvalidSize },
                )
            },
        }
    }

    /// The registry and the step once the handle of the window that is being
    /// registered is known.
    pub open spec fn handle_found(
        self,
        hwnd: isize,
        state: usize,
        registration: Registration,
        found: Result<isize, AppBarError>,
    ) -> (Registry, SubclassStep) {
        match found {
            Err(error) => self.detaching(hwnd, DetachGoal::Rollback { state, error }),
            Ok(window) => {
                let app_bar = AppBar::unregistered(
                    window,
                    registration.monitor_index,
                    registration.edge,
                    registration.size,
                    registration.callback_message,
                );
                self.run_advanced(
                    state,
                    app_bar,
                    app_bar.registering(),
                    RunGoal::Register { hwnd },
                )
            },
        }
    }

    /// The registry and the step after the call that `operation` waits for.
    pub open spec fn after(self, operation: SubclassOperation, reply: SubclassReply) -> (
        Registry,
        SubclassStep,
    ) {
        match (operation, reply) {
            (
                SubclassOperation::Install { hwnd, state, registration },
                SubclassReply::Install(result),
            ) => self.subclass_installed(hwnd, state, registration, result),
            (
                SubclassOperation::Handle { hwnd, state, registration },
                SubclassReply::WindowHandle(found),
            ) => self.handle_found(hwnd, state, registration, found),
            (
                SubclassOperation::Run { state, app_bar, operation, goal },
                SubclassReply::AppBar(reply),
            ) => {
                let (app_bar, step) = app_bar.after(operation, reply);
                self.run_advanced(state, app_bar, step, goal)
            },
            (
                SubclassOperation::Drain { state, app_bar, operation, notify, goal },
                SubclassReply::AppBar(reply),
            ) => {
                let (app_bar, step) = app_bar.after(operation, reply);
                self.drain_advanced(state, app_bar, step, notify, goal)
            },
            (
                SubclassOperation::Dispose { state, app_bar, operation, goal },
                SubclassReply::AppBar(reply),
            ) => {
                let (app_bar, step) = app_bar.after(operation, reply);
                (self, self.disposed(state, app_bar, step, goal))
            },
            (
                SubclassOperation::Remove { hwnd, state, goal },
                SubclassReply::Remove(result),
            ) => self.subclass_removed(hwnd, state, goal, result),
            (
                SubclassOperation::Release { hwnd, app_bar, operation, goal },
                SubclassReply::AppBar(reply),
            ) => {
                let (app_bar, step) = app_bar.after(operation, reply);
                self.released(hwnd, app_bar, step, goal)
            },
            (SubclassOperation::CallNext, SubclassReply::CallNext(result)) => (
                self,
                SubclassStep::Replied(result),
            ),
            _ => arbitrary(),
        }
    }
}

impl Registry {
    /// The registry and the first step of a registration for the window.
    pub open spec fn registering(self, hwnd: isize, registration: Registration) -> (
        Registry,
        SubclassStep,
    ) {
        if self.occupied(hwnd) {
            (self, SubclassStep::Registered(Err(AppBarError::SubclassAlreadyRegistered)))
        } else {
            (
                self.reserving(
                    hwnd,
                    SubclassState::registering_state(registration.callback_message),
                ),
                SubclassStep::Call {
                    request: SubclassRequest::Install { hwnd },
                    then: SubclassOperation::Install {
                        hwnd,
                        state: self.states.len() as usize,
                        registration,
                    },
                },
            )
        }
    }

    /// The registry and the first step with which the window procedure takes a
    /// message.
    pub open spec fn receiving(self, hwnd: isize, message: WindowMessage) -> (
        Registry,
        SubclassStep,
    ) {
        if message.message == WM_DESTROY {
            self.detaching(hwnd, DetachGoal::Destroy { message })
        } else if !self.slots.contains_key(hwnd) {
            (
                self,
                if self.notified_by(hwnd, message.message) {
                    SubclassStep::Replied(0)
                } else {
                    SubclassStep::forwarding(hwnd, message)
                },
            )
        } else {
            let state = self.slots[hwnd];
            let value = self.states[state as int];
            if value.operation_in_progress {
                (
                    self.with_state(state, value.noting(message.message, message.wparam)),
                    if message.message == value.callback_message {
                        SubclassStep::Replied(0)
                    } else {
                        SubclassStep::forwarding(hwnd, message)
                    },
                )
            } else {
                match value.app_bar {
                    None => (self, SubclassStep::forwarding(hwnd, message)),
                    Some(app_bar) => self.with_state(state, value.taken()).run_advanced(
                        state,
                        app_bar,
                        app_bar.handling(message.message, message.wparam),
                        RunGoal::Message { hwnd, message },
                    ),
                }
            }
        }
    }

    /// The registry and the first step of a change of the AppBar of `state`.
    pub open spec fn changing(self, state: usize, call: AppBarCall) -> (Registry, SubclassStep) {
        let value = self.states[state as int];
        let app_bar = value.app_bar->0;
        let (app_bar, step) = match call {
            AppBarCall::SetSize(size) => app_bar.setting_size(size),
            AppBarCall::SetEdge(edge) => app_bar.setting_edge(edge),
            AppBarCall::SetMonitorIndex(index) => (app_bar, app_bar.setting_monitor_index(index)),
            AppBarCall::Show => (app_bar, app_bar.starting_show()),
            AppBarCall::Hide => (app_bar, app_bar.starting_hide()),
        };
        self.with_state(state, value.taken()).run_advanced(
            state,
            app_bar,
            step,
            RunGoal::Operation,
        )
    }
}

/// Returns how an operation of an AppBar ended that ended with `step`.
fn step_outcome(step: AppBarStep) -> (outcome: Result<(), AppBarError>)
    ensures
        outcome == step.outcome(),
{
    match step {
        AppBarStep::Finished(result) => result,
        AppBarStep::Handled(Err(error)) => Err(error),
        _ => Ok(()),
    }
}

/// Returns the step that passes a message on to the next procedure.
fn forward(hwnd: isize, message: WindowMessage) -> (step: SubclassStep)
    ensures
        step == SubclassStep::forwarding(hwnd, message),
        forall|count: nat| step.wf(count),
{
    SubclassStep::Call {
        request: SubclassRequest::CallNext { hwnd, message },
        then: SubclassOperation::CallNext,
    }
}

/// Returns the step once an operation has given its AppBar back to `state`.
fn finish(state: usize, goal: FinishGoal) -> (step: SubclassStep)
    ensures
        step == SubclassStep::finishing(state, goal),
        forall|count: nat| state < count ==> step.wf(count),
{
    match goal {
        FinishGoal::Registered { hwnd } => SubclassStep::Registered(
            Ok(SubclassedAppBar { hwnd, state }),
        ),
        FinishGoal::Operation { result } => SubclassStep::Finished(result),
        FinishGoal::Message { hwnd, message, consumed } => {
            if consumed {
                SubclassStep::Replied(0)
            } else {
                forward(hwnd, message)
            }
        },
    }
}

impl SubclassRegistry {
    /// Goes on with `operation` after the call that it waited for.
    pub fn resume(&mut self, operation: SubclassOperation, reply: SubclassReply) -> (step:
        SubclassStep)
        requires
            old(self)@.wf(),
            operation.wf(old(self)@.states.len()),
            operation.awaits(reply),
        ensures
            (final(self)@, step) == old(self)@.after(operation, reply),
            final(self)@.wf(),
            final(self)@.states.len() == old(self)@.states.len(),
            step.wf(final(self)@.states.len()),
    {
        match (operation, reply) {
            (
                SubclassOperation::Install { hwnd, state, registration },
                SubclassReply::Install(result),
            ) => self.install_ended(hwnd, state, registration, result),
            (
                SubclassOperation::Handle { hwnd, state, registration },
                SubclassReply::WindowHandle(found),
            ) => self.register_app_bar(hwnd, state, registration, found),
            (
                SubclassOperation::Run { state, app_bar, operation, goal },
                SubclassReply::AppBar(reply),
            ) => {
                let mut app_bar = app_bar;
                let step = app_bar.resume(operation, reply);
                self.advance(state, app_bar, step, goal)
            },
            (
                SubclassOperation::Drain { state, app_bar, operation, notify, goal },
                SubclassReply::AppBar(reply),
            ) => {
                let mut app_bar = app_bar;
                let step = app_bar.resume(operation, reply);
                self.advance_drain(state, app_bar, step, notify, goal)
            },
            (
                SubclassOperation::Dispose { state, app_bar, operation, goal },
                SubclassReply::AppBar(reply),
            ) => {
                let mut app_bar = app_bar;
                let step = app_bar.resume(operation, reply);
                self.dispose(state, app_bar, step, goal)
            },
            (SubclassOperation::Remove { hwnd, state, goal }, SubclassReply::Remove(result)) => {
                self.remove_ended(hwnd, state, goal, result)
            },
            (
                SubclassOperation::Release { hwnd, app_bar, operation, goal },
                SubclassReply::AppBar(reply),
            ) => {
                let mut app_bar = app_bar;
                let step = app_bar.resume(operation, reply);
                self.release(hwnd, app_bar, step, goal)
            },
            (SubclassOperation::CallNext, SubclassReply::CallNext(result)) => {
                SubclassStep::Replied(result)
            },
            _ => unreached(),
        }
    }

    /// Takes the AppBar of `state` for an operation.
    pub fn begin_app_bar_operation(&mut self, state: usize) -> (app_bar: Option<AppBar>)
        requires
            old(self)@.wf(),
            state < old(self)@.states.len(),
        ensures
            ({
                let value = old(self)@.states[state as int];
                if value.available() {
                    app_bar == value.app_bar && final(self)@ == old(self)@.with_state(
                        state,
                        value.taken(),
                    )
                } else {
                    app_bar is None && final(self)@ == old(self)@
                }
            }),
            app_bar matches Some(app_bar) ==> app_bar.wf(),
            final(self)@.wf(),
    {
        let app_bar = self.borrow_mut(state).begin_operation();
        assert(app_bar is None ==> self@.states =~= old(self)@.states);
        app_bar
    }

    /// Lets `app_bar` handle what is pending for `state` and gives it back, once
    /// an operation has ended that took it with
    /// [`Self::begin_app_bar_operation`].
    pub fn finish_app_bar_operation(&mut self, state: usize, app_bar: AppBar) -> (step:
        SubclassStep)
        requires
            old(self)@.wf(),
            state < old(self)@.states.len(),
            app_bar.wf(),
        ensures
            (final(self)@, step) == old(self)@.drained(
                state,
                app_bar,
                FinishGoal::Operation { result: Ok(()) },
            ),
            final(self)@.wf(),
            final(self)@.states.len() == old(self)@.states.len(),
            step.wf(final(self)@.states.len()),
    {
        self.drain(state, app_bar, FinishGoal::Operation { result: Ok(()) })
    }

    /// Goes on with an operation for which `app_bar` is at `step`.
    fn advance(&mut self, state: usize, app_bar: AppBar, step: AppBarStep, goal: RunGoal) -> (next:
        SubclassStep)
        requires
            old(self)@.wf(),
            state < old(self)@.states.len(),
            app_bar.wf(),
            step.wf(),
        ensures
            (final(self)@, next) == old(self)@.run_advanced(state, app_bar, step, goal),
            final(self)@.wf(),
            final(self)@.states.len() == old(self)@.states.len(),
            next.wf(final(self)@.states.len()),
    {
        match step {
            AppBarStep::Call { request, then } => SubclassStep::Call {
                request: SubclassRequest::AppBar(request),
                then: SubclassOperation::Run { state, app_bar, operation: then, goal },
            },
            _ => match goal {
                RunGoal::Register { hwnd } => {
                    let outcome = match step_outcome(step) {
                        Ok(()) => Ok(app_bar),
                        Err(error) => Err(error),
                    };
                    self.complete_subclass_registration(hwnd, state, outcome)
                },
                RunGoal::Operation => {
                    let result = step_outcome(step);
                    self.drain(state, app_bar, FinishGoal::Operation { result })
                },
                RunGoal::Message { hwnd, message } => {
                    let consumed = matches!(step, AppBarStep::Handled(Ok(true)));
                    self.drain(state, app_bar, FinishGoal::Message { hwnd, message, consumed })
                },
            },
        }
    }

    /// Lets `app_bar` handle what is pending, and gives it back when nothing
    /// is.
    fn drain(&mut self, state: usize, app_bar: AppBar, goal: FinishGoal) -> (step: SubclassStep)
        requires
            old(self)@.wf(),
            state < old(self)@.states.len(),
            app_bar.wf(),
        ensures
            (final(self)@, step) == old(self)@.drained(state, app_bar, goal),
            final(self)@.wf(),
            final(self)@.states.len() == old(self)@.states.len(),
            step.wf(final(self)@.states.len()),
    {
        let mut app_bar = app_bar;
        let (reposition, position_changed, callback_message) = self.borrow_mut(
            state,
        ).take_pending_notifications();
        if reposition {
            let step = app_bar.handle_window_message(callback_message, ABN_POSCHANGED as usize, 0);
            if let AppBarStep::Call { request, then } = step {
                return SubclassStep::Call {
                    request: SubclassRequest::AppBar(request),
                    then: SubclassOperation::Drain {
                        state,
                        app_bar,
                        operation: then,
                        notify: position_changed,
                        goal,
                    },
                };
            }
        }
        if position_changed {
            let step = app_bar.handle_window_message(WM_WINDOWPOSCHANGED, 0, 0);
            if let AppBarStep::Call { request, then } = step {
                return SubclassStep::Call {
                    request: SubclassRequest::AppBar(request),
                    then: SubclassOperation::Drain {
                        state,
                        app_bar,
                        operation: then,
                        notify: false,
                        goal,
                    },
                };
            }
        }
        self.settle(state, app_bar, goal)
    }

    /// Goes on after `app_bar` has come to `step` in handling something that
    /// was pending.
    fn advance_drain(
        &mut self,
        state: usize,
        app_bar: AppBar,
        step: AppBarStep,
        notify: bool,
        goal: FinishGoal,
    ) -> (next: SubclassStep)
        requires
            old(self)@.wf(),
            state < old(self)@.states.len(),
            app_bar.wf(),
            step.wf(),
        ensures
            (final(self)@, next) == old(self)@.drain_advanced(state, app_bar, step, notify, goal),
            final(self)@.wf(),
            final(self)@.states.len() == old(self)@.states.len(),
            next.wf(final(self)@.states.len()),
    {
        let mut app_bar = app_bar;
        if let AppBarStep::Call { request, then } = step {
            return SubclassStep::Call {
                request: SubclassRequest::AppBar(request),
                then: SubclassOperation::Drain { state, app_bar, operation: then, notify, goal },
            };
        }
        if notify {
            let position = app_bar.handle_window_message(WM_WINDOWPOSCHANGED, 0, 0);
            if let AppBarStep::Call { request, then } = position {
                return SubclassStep::Call {
                    request: SubclassRequest::AppBar(request),
                    then: SubclassOperation::Drain {
                        state,
                        app_bar,
                        operation: then,
                        notify: false,
                        goal,
                    },
                };
            }
        }
        self.drain(state, app_bar, goal)
    }

    /// Gives `app_bar` back to its state, or lets go of it if the window has
    /// been detached.
    fn settle(&mut self, state: usize, app_bar: AppBar, goal: FinishGoal) -> (step: SubclassStep)
        requires
            old(self)@.wf(),
            state < old(self)@.states.len(),
            app_bar.wf(),
        ensures
            (final(self)@, step) == old(self)@.settled(state, app_bar, goal),
            final(self)@.wf(),
            final(self)@.states.len() == old(self)@.states.len(),
            step.wf(final(self)@.states.len()),
    {
        match self.borrow_mut(state).finish_operation(app_bar) {
            None => finish(state, goal),
            Some(app_bar) => {
                let mut app_bar = app_bar;
                let step = app_bar.drop();
                self.dispose(state, app_bar, step, goal)
            },
        }
    }

    /// Goes on with the removal of an AppBar that could not be given back.
    fn dispose(&self, state: usize, app_bar: AppBar, step: AppBarStep, goal: FinishGoal) -> (next:
        SubclassStep)
        requires
            state < self@.states.len(),
            app_bar.wf(),
            step.wf(),
        ensures
            next == self@.disposed(state, app_bar, step, goal),
            next.wf(self@.states.len()),
    {
        match step {
            AppBarStep::Call { request, then } => SubclassStep::Call {
                request: SubclassRequest::AppBar(request),
                then: SubclassOperation::Dispose { state, app_bar, operation: then, goal },
            },
            _ => finish(state, goal),
        }
    }

    /// Goes on once the subclass has been installed, or could not be.
    fn install_ended(
        &mut self,
        hwnd: isize,
        state: usize,
        registration: Registration,
        result: Result<(), windows_result::Error>,
    ) -> (step: SubclassStep)
        requires
            old(self)@.wf(),
            state < old(self)@.states.len(),
        ensures
            (final(self)@, step) == old(self)@.subclass_installed(
                hwnd,
                state,
                registration,
                result,
            ),
            final(self)@.wf(),
            final(self)@.states.len() == old(self)@.states.len(),
            step.wf(final(self)@.states.len()),
    {
        match result {
            Err(error) => {
                self.release_if_owned(hwnd, state);
                SubclassStep::Registered(Err(AppBarError::from(error)))
            },
            Ok(()) => match check_size(registration.size) {
                Ok(_) => SubclassStep::Call {
                    request: SubclassRequest::WindowHandle,
                    then: SubclassOperation::Handle { hwnd, state, registration },
                },
                Err(error) => self.complete_subclass_registration(hwnd, state, Err(error)),
            },
        }
    }

    /// Starts to register the AppBar of a window whose subclass is installed.
    fn register_app_bar(
        &mut self,
        hwnd: isize,
        state: usize,
        registration: Registration,
        found: Result<isize, AppBarError>,
    ) -> (step: SubclassStep)
        requires
            old(self)@.wf(),
            state < old(self)@.states.len(),
            valid_size(registration.size),
        ensures
            (final(self)@, step) == old(self)@.handle_found(hwnd, state, registration, found),
            final(self)@.wf(),
            final(self)@.states.len() == old(self)@.states.len(),
            step.wf(final(self)@.states.len()),
    {
        match found {
            Err(error) => self.complete_subclass_registration(hwnd, state, Err(error)),
            Ok(window) => {
                let (app_bar, step) = AppBar::begin_registration(
                    window,
                    registration.monitor_index,
                    registration.edge,
                    registration.size as i32,
                    registration.callback_message,
                );
                self.advance(state, app_bar, step, RunGoal::Register { hwnd })
            },
        }
    }

    /// Completes the registration of an AppBar after the subclass has been
    /// installed: a registered AppBar handles what is pending and is given to
    /// its state; after an error the window is detached again.
    pub fn complete_subclass_registration(
        &mut self,
        hwnd: isize,
        state: usize,
        app_bar: Result<AppBar, AppBarError>,
    ) -> (step: SubclassStep)
        requires
            old(self)@.wf(),
            state < old(self)@.states.len(),
            app_bar matches Ok(app_bar) ==> app_bar.wf(),
        ensures
            (final(self)@, step) == match app_bar {
                Ok(app_bar) => old(self)@.drained(state, app_bar, FinishGoal::Registered { hwnd }),
                Err(error) => old(self)@.detaching(hwnd, DetachGoal::Rollback { state, error }),
            },
            final(self)@.wf(),
            final(self)@.states.len() == old(self)@.states.len(),
            step.wf(final(self)@.states.len()),
    {
        match app_bar {
            Ok(app_bar) => self.drain(state, app_bar, FinishGoal::Registered { hwnd }),
            Err(error) => self.detach_subclass_state(hwnd, DetachGoal::Rollback { state, error }),
        }
    }

    /// Detaches the window: removes its subclass, releases its slot and gives
    /// up its AppBar.
    pub fn detach_subclass_state(&mut self, hwnd: isize, goal: DetachGoal) -> (step: SubclassStep)
        requires
            old(self)@.wf(),
            goal.wf(old(self)@.states.len()),
        ensures
            (final(self)@, step) == old(self)@.detaching(hwnd, goal),
            final(self)@.wf(),
            final(self)@.states.len() == old(self)@.states.len(),
            step.wf(final(self)@.states.len()),
    {
        if let Some(state) = self.state(hwnd) {
            if self.borrow(state).is_attached() {
                return SubclassStep::Call {
                    request: SubclassRequest::Remove { hwnd },
                    then: SubclassOperation::Remove { hwnd, state, goal },
                };
            }
        }
        self.end_detach(hwnd, goal, Ok(()))
    }

    /// Goes on once the subclass has been removed, or could not be.
    fn remove_ended(
        &mut self,
        hwnd: isize,
        state: usize,
        goal: DetachGoal,
        result: Result<(), windows_result::Error>,
    ) -> (step: SubclassStep)
        requires
            old(self)@.wf(),
            state < old(self)@.states.len(),
            goal.wf(old(self)@.states.len()),
        ensures
            (final(self)@, step) == old(self)@.subclass_removed(hwnd, state, goal, result),
            final(self)@.wf(),
            final(self)@.states.len() == old(self)@.states.len(),
            step.wf(final(self)@.states.len()),
    {
        if let Err(error) = result {
            return self.end_detach(hwnd, goal, Err(AppBarError::from(error)));
        }
        self.release_if_owned(hwnd, state);
        match self.borrow_mut(state).begin_detach() {
            Some(app_bar) => {
                let step = app_bar.release();
                self.release(hwnd, app_bar, step, goal)
            },
            None => self.end_detach(hwnd, goal, Ok(())),
        }
    }

    /// Goes on with the removal of the AppBar of a detached window.
    fn release(
        &mut self,
        hwnd: isize,
        app_bar: AppBar,
        step: AppBarStep,
        goal: DetachGoal,
    ) -> (next: SubclassStep)
        requires
            old(self)@.wf(),
            app_bar.wf(),
            step.wf(),
            goal.wf(old(self)@.states.len()),
        ensures
            (final(self)@, next) == old(self)@.released(hwnd, app_bar, step, goal),
            final(self)@.wf(),
            final(self)@.states.len() == old(self)@.states.len(),
            next.wf(final(self)@.states.len()),
    {
        match step {
            AppBarStep::Call { request, then } => SubclassStep::Call {
                request: SubclassRequest::AppBar(request),
                then: SubclassOperation::Release { hwnd, app_bar, operation: then, goal },
            },
            _ => {
                let result = step_outcome(step);
                self.end_detach(hwnd, goal, result)
            },
        }
    }

    /// Goes on once the window has been detached, or could not be.
    fn end_detach(&mut self, hwnd: isize, goal: DetachGoal, result: Result<(), AppBarError>) -> (
    step: SubclassStep)
        requires
            old(self)@.wf(),
            goal.wf(old(self)@.states.len()),
        ensures
            (final(self)@, step) == old(self)@.detach_ended(hwnd, goal, result),
            final(self)@.wf(),
            final(self)@.states.len() == old(self)@.states.len(),
            step.wf(final(self)@.states.len()),
    {
        match goal {
            DetachGoal::Rollback { state, error } => match result {
                Ok(()) => SubclassStep::Registered(Err(error)),
                Err(AppBarError::Windows(subclass_error)) => {
                    self.borrow_mut(state).abort_registration();
                    SubclassStep::Registered(
                        Err(
                            AppBarError::SubclassRegistrationCleanup {
                                registration_error: Box::new(error),
                                subclass_error,
                            },
                        ),
                    )
                },
                Err(rollback_error) => SubclassStep::Registered(Err(rollback_error)),
            },
            DetachGoal::Unregister => self.drop_handle(hwnd, result),
            DetachGoal::Drop { result } => SubclassStep::Finished(result),
            DetachGoal::Destroy { message } => forward(hwnd, message),
        }
    }

    /// Detaches the window without a report, after an operation with `result`.
    fn drop_handle(&self, hwnd: isize, result: Result<(), AppBarError>) -> (step: SubclassStep)
        requires
            self@.wf(),
        ensures
            step == self@.dropping(hwnd, result),
            step.wf(self@.states.len()),
    {
        if let Some(state) = self.state(hwnd) {
            if self.borrow(state).is_attached() {
                return SubclassStep::Call {
                    request: SubclassRequest::Remove { hwnd },
                    then: SubclassOperation::Remove {
                        hwnd,
                        state,
                        goal: DetachGoal::Drop { result },
                    },
                };
            }
        }
        SubclassStep::Finished(result)
    }

    /// Chooses what the window procedure does with a message to the window of
    /// `state`.
    pub fn dispatch_subclass_message(&mut self, state: usize, message: u32, wparam: usize) -> (
    dispatch: SubclassMessageDispatch)
        requires
            old(self)@.wf(),
            state < old(self)@.states.len(),
        ensures
            ({
                let value = old(self)@.states[state as int];
                if value.operation_in_progress {
                    &&& final(self)@ == old(self)@.with_state(state, value.noting(message, wparam))
                    &&& dispatch == if message == value.callback_message {
                        SubclassMessageDispatch::Consume
                    } else {
                        SubclassMessageDispatch::Forward
                    }
                } else {
                    match value.app_bar {
                        Some(app_bar) => {
                            &&& final(self)@ == old(self)@.with_state(state, value.taken())
                            &&& dispatch == SubclassMessageDispatch::HandleWithAppBar(app_bar)
                        },
                        None => {
                            &&& final(self)@ == old(self)@
                            &&& dispatch == SubclassMessageDispatch::Forward
                        },
                    }
                }
            }),
            dispatch matches SubclassMessageDispatch::HandleWithAppBar(app_bar) ==> app_bar.wf(),
            final(self)@.wf(),
    {
        let dispatch = self.borrow_mut(state).dispatch_message(message, wparam);
        assert(self@.states[state as int] == old(self)@.states[state as int] ==> self@.states
            =~= old(self)@.states);
        dispatch
    }

    /// Takes a message to the window, as the procedure of its subclass.
    ///
    /// To a window without a state, a late notification is answered with zero;
    /// every other message is passed on.
    pub fn subclassed_app_bar_window_proc(
        &mut self,
        hwnd: isize,
        message: u32,
        wparam: usize,
        lparam: isize,
    ) -> (step: SubclassStep)
        requires
            old(self)@.wf(),
        ensures
            (final(self)@, step) == old(self)@.receiving(
                hwnd,
                WindowMessage { message, wparam, lparam },
            ),
            final(self)@.wf(),
            final(self)@.states.len() == old(self)@.states.len(),
            step.wf(final(self)@.states.len()),
    {
        let received = WindowMessage { message, wparam, lparam };
        if message == WM_DESTROY {
            return self.detach_subclass_state(hwnd, DetachGoal::Destroy { message: received });
        }
        let state: usize = match self.state(hwnd) {
            Some(state) => state,
            None => {
                if let Some(callback_message) = self.last_callback_message(hwnd) {
                    if message == callback_message {
                        return SubclassStep::Replied(0);
                    }
                }
                return forward(hwnd, received);
            },
        };
        match self.dispatch_subclass_message(state, message, wparam) {
            SubclassMessageDispatch::Consume => SubclassStep::Replied(0),
            SubclassMessageDispatch::Forward => forward(hwnd, received),
            SubclassMessageDispatch::HandleWithAppBar(app_bar) => {
                let mut app_bar = app_bar;
                let step = app_bar.handle_window_message(message, wparam, lparam);
                self.advance(state, app_bar, step, RunGoal::Message { hwnd, message: received })
            },
        }
    }
}

impl SubclassedAppBar {
    /// Whether this stands for a state of `registry` whose AppBar is at hand.
    pub open spec fn has_app_bar(self, registry: Registry) -> bool {
        &&& registry.wf()
        &&& self.state < registry.states.len()
        &&& registry.states[self.state as int].app_bar is Some
    }

    /// Whether this stands for a state of `registry` whose AppBar an operation
    /// can take.
    pub open spec fn is_available(self, registry: Registry) -> bool {
        &&& registry.wf()
        &&& self.state < registry.states.len()
        &&& registry.states[self.state as int].available()
    }

    /// The AppBar that `registry` holds for this.
    pub open spec fn app_bar_in(self, registry: Registry) -> AppBar {
        registry.states[self.state as int].app_bar->0
    }

    /// Registers the window behind `handle` as an AppBar on `monitor_index` and
    /// subclasses its window procedure so AppBar messages are forwarded
    /// automatically.
    ///
    /// The value with which the steps end must be kept until before the native
    /// window is destroyed.
    pub fn register(
        registry: &mut SubclassRegistry,
        handle: Result<raw_window_handle::RawWindowHandle, raw_window_handle::HandleError>,
        monitor_index: usize,
        edge: Edge,
        size: u32,
    ) -> (step: SubclassStep)
        requires
            old(registry)@.wf(),
        ensures
            (final(registry)@, step) == match window_of(handle) {
                Err(error) => (old(registry)@, SubclassStep::Registered(Err(error))),
                Ok(hwnd) => old(registry)@.registering(
                    hwnd,
                    Registration {
                        monitor_index,
                        edge,
                        size,
                        callback_message: APP_BAR_CALLBACK_MESSAGE,
                    },
                ),
            },
            window_of(handle) matches Ok(hwnd) ==> old(registry)@.occupied(hwnd)
                || old(registry)@.states.len() <= usize::MAX,
            final(registry)@.wf(),
            step.wf(final(registry)@.states.len()),
    {
        Self::register_with_callback_message(
            registry,
            handle,
            monitor_index,
            edge,
            size,
            APP_BAR_CALLBACK_MESSAGE,
        )
    }

    /// Like [`Self::register`], but uses `callback_message` for Shell AppBar
    /// notifications.
    pub fn register_with_callback_message(
        registry: &mut SubclassRegistry,
        handle: Result<raw_window_handle::RawWindowHandle, raw_window_handle::HandleError>,
        monitor_index: usize,
        edge: Edge,
        size: u32,
        callback_message: u32,
    ) -> (step: SubclassStep)
        requires
            old(registry)@.wf(),
        ensures
            (final(registry)@, step) == match window_of(handle) {
                Err(error) => (old(registry)@, SubclassStep::Registered(Err(error))),
                Ok(hwnd) => old(registry)@.registering(
                    hwnd,
                    Registration { monitor_index, edge, size, callback_message },
                ),
            },
            window_of(handle) matches Ok(hwnd) ==> old(registry)@.occupied(hwnd)
                || old(registry)@.states.len() <= usize::MAX,
            final(registry)@.wf(),
            step.wf(final(registry)@.states.len()),
    {
        Self::register_window(
            registry,
            hwnd_from_window(handle),
            Registration { monitor_index, edge, size, callback_message },
        )
    }

    /// Registers `window` as a subclassed AppBar, where `window` is what
    /// [`hwnd_from_window`] made of its handle.
    pub fn register_window(
        registry: &mut SubclassRegistry,
        window: Result<isize, AppBarError>,
        registration: Registration,
    ) -> (step: SubclassStep)
        requires
            old(registry)@.wf(),
        ensures
            (final(registry)@, step) == match window {
                Err(error) => (old(registry)@, SubclassStep::Registered(Err(error))),
                Ok(hwnd) => old(registry)@.registering(hwnd, registration),
            },
            window matches Ok(hwnd) ==> old(registry)@.occupied(hwnd)
                || old(registry)@.states.len() <= usize::MAX,
            final(registry)@.wf(),
            step.wf(final(registry)@.states.len()),
    {
        let hwnd: isize = match window {
            Ok(hwnd) => hwnd,
            Err(error) => {
                return SubclassStep::Registered(Err(error));
            },
        };
        match registry.reserve(hwnd, SubclassState::registering(registration.callback_message)) {
            Ok(state) => SubclassStep::Call {
                request: SubclassRequest::Install { hwnd },
                then: SubclassOperation::Install { hwnd, state, registration },
            },
            Err(error) => SubclassStep::Registered(Err(error)),
        }
    }

    /// Returns the edge currently requested by this AppBar.
    pub fn edge(&self, registry: &SubclassRegistry) -> (edge: Edge)
        requires
            self.has_app_bar(registry@),
        ensures
            edge == self.app_bar_in(registry@).edge,
    {
        self.with_registered_app_bar(registry).edge()
    }

    /// Returns the zero-based monitor index selected for this AppBar.
    pub fn monitor_index(&self, registry: &SubclassRegistry) -> (monitor_index: usize)
        requires
            self.has_app_bar(registry@),
        ensures
            monitor_index == self.app_bar_in(registry@).monitor_index,
    {
        self.with_registered_app_bar(registry).monitor_index()
    }

    /// Returns this AppBar's requested thickness in physical pixels.
    pub fn size(&self, registry: &SubclassRegistry) -> (size: u32)
        requires
            self.has_app_bar(registry@),
        ensures
            size == self.app_bar_in(registry@).size,
    {
        self.with_registered_app_bar(registry).size()
    }

    /// Returns the Shell callback message registered for this AppBar.
    pub fn callback_message(&self, registry: &SubclassRegistry) -> (message: u32)
        requires
            self.state < registry@.states.len(),
        ensures
            message == registry@.states[self.state as int].callback_message,
    {
        registry.borrow(self.state).callback_message
    }

    /// Returns whether this AppBar is currently registered with the Shell.
    ///
    /// This does not report the native window's visibility.
    pub fn is_registered(&self, registry: &SubclassRegistry) -> (registered: bool)
        requires
            self.has_app_bar(registry@),
        ensures
            registered == self.app_bar_in(registry@).registered,
    {
        self.with_registered_app_bar(registry).is_registered()
    }

    /// Returns whether this AppBar currently reserves desktop work area.
    pub fn is_visible(&self, registry: &SubclassRegistry) -> (visible: bool)
        requires
            self.has_app_bar(registry@),
        ensures
            visible == self.app_bar_in(registry@).registered,
    {
        self.with_registered_app_bar(registry).is_visible()
    }

    /// Changes the requested thickness and immediately repositions the AppBar.
    pub fn set_size(&self, registry: &mut SubclassRegistry, size: u32) -> (step: SubclassStep)
        requires
            self.is_available(old(registry)@),
        ensures
            (final(registry)@, step) == old(registry)@.changing(
                self.state,
                AppBarCall::SetSize(size),
            ),
            final(registry)@.wf(),
            final(registry)@.states.len() == old(registry)@.states.len(),
            step.wf(final(registry)@.states.len()),
    {
        self.with_app_bar(registry, AppBarCall::SetSize(size))
    }

    /// Changes the desktop edge and immediately repositions the AppBar.
    pub fn set_edge(&self, registry: &mut SubclassRegistry, edge: Edge) -> (step: SubclassStep)
        requires
            self.is_available(old(registry)@),
        ensures
            (final(registry)@, step) == old(registry)@.changing(
                self.state,
                AppBarCall::SetEdge(edge),
            ),
            final(registry)@.wf(),
            final(registry)@.states.len() == old(registry)@.states.len(),
            step.wf(final(registry)@.states.len()),
    {
        self.with_app_bar(registry, AppBarCall::SetEdge(edge))
    }

    /// Moves the AppBar to another monitor in
    /// [`crate::monitor::enumerate_monitors`] order.
    pub fn set_monitor_index(&self, registry: &mut SubclassRegistry, monitor_index: usize) -> (step:
        SubclassStep)
        requires
            self.is_available(old(registry)@),
        ensures
            (final(registry)@, step) == old(registry)@.changing(
                self.state,
                AppBarCall::SetMonitorIndex(monitor_index),
            ),
            final(registry)@.wf(),
            final(registry)@.states.len() == old(registry)@.states.len(),
            step.wf(final(registry)@.states.len()),
    {
        self.with_app_bar(registry, AppBarCall::SetMonitorIndex(monitor_index))
    }

    /// Registers this AppBar with the Shell if needed, then shows its native
    /// window without activating it.
    pub fn show(&self, registry: &mut SubclassRegistry) -> (step: SubclassStep)
        requires
            self.is_available(old(registry)@),
        ensures
            (final(registry)@, step) == old(registry)@.changing(self.state, AppBarCall::Show),
            final(registry)@.wf(),
            final(registry)@.states.len() == old(registry)@.states.len(),
            step.wf(final(registry)@.states.len()),
    {
        self.with_app_bar(registry, AppBarCall::Show)
    }

    /// Hides its native window and releases its Shell AppBar registration.
    pub fn hide_window(&self, registry: &mut SubclassRegistry) -> (step: SubclassStep)
        requires
            self.is_available(old(registry)@),
        ensures
            (final(registry)@, step) == old(registry)@.changing(self.state, AppBarCall::Hide),
            final(registry)@.wf(),
            final(registry)@.states.len() == old(registry)@.states.len(),
            step.wf(final(registry)@.states.len()),
    {
        self.with_app_bar(registry, AppBarCall::Hide)
    }

    /// Removes the AppBar and removes this library's window subclass.
    ///
    /// This is the only way of cleaning up that reports errors. If the subclass
    /// cannot be removed, a second attempt is made, as when this is dropped;
    /// the error of the first is reported.
    pub fn unregister(&self, registry: &mut SubclassRegistry) -> (step: SubclassStep)
        requires
            old(registry)@.wf(),
        ensures
            (final(registry)@, step) == old(registry)@.detaching(self.hwnd, DetachGoal::Unregister),
            final(registry)@.wf(),
            final(registry)@.states.len() == old(registry)@.states.len(),
            step.wf(final(registry)@.states.len()),
    {
        registry.detach_subclass_state(self.hwnd, DetachGoal::Unregister)
    }

    /// Cleans up as far as possible, without a report.
    pub fn drop(&self, registry: &mut SubclassRegistry) -> (step: SubclassStep)
        requires
            old(registry)@.wf(),
        ensures
            final(registry)@ == old(registry)@,
            step == old(registry)@.dropping(self.hwnd, Ok(())),
            step.wf(final(registry)@.states.len()),
    {
        registry.drop_handle(self.hwnd, Ok(()))
    }

    /// Runs an operation of the registered AppBar.
    ///
    /// Any AppBar notifications that reach the window while the operation makes
    /// native calls are noted, and handled before its steps end.
    pub fn with_app_bar(&self, registry: &mut SubclassRegistry, call: AppBarCall) -> (step:
        SubclassStep)
        requires
            self.is_available(old(registry)@),
        ensures
            (final(registry)@, step) == old(registry)@.changing(self.state, call),
            final(registry)@.wf(),
            final(registry)@.states.len() == old(registry)@.states.len(),
            step.wf(final(registry)@.states.len()),
    {
        match registry.begin_app_bar_operation(self.state) {
            Some(app_bar) => {
                let mut app_bar = app_bar;
                let step = match call {
                    AppBarCall::SetSize(size) => app_bar.set_size(size),
                    AppBarCall::SetEdge(edge) => app_bar.set_edge(edge),
                    AppBarCall::SetMonitorIndex(index) => app_bar.set_monitor_index(index),
                    AppBarCall::Show => app_bar.show(),
                    AppBarCall::Hide => app_bar.hide_window(),
                };
                registry.advance(self.state, app_bar, step, RunGoal::Operation)
            },
            None => unreached(),
        }
    }

    /// Returns the AppBar, which is at hand unless an operation has it.
    fn with_registered_app_bar<'a>(&self, registry: &'a SubclassRegistry) -> (app_bar: &'a AppBar)
        requires
            self.has_app_bar(registry@),
        ensures
            *app_bar == self.app_bar_in(registry@),
            app_bar.wf(),
    {
        match &registry.borrow(self.state).app_bar {
            Some(app_bar) => app_bar,
            None => unreached(),
        }
    }
}

} // verus!
