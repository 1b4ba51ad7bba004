//! What holds of subclassed AppBars, whatever the desktop replies.
//!
//! A law that speaks of an [`Event`] or of a [`trace`] holds whatever other
//! operations do in between. A law that speaks of a [`quiet_run`] is about an
//! operation that no other operation disturbs.

use vstd::prelude::*;

use crate::app_bar::{
    valid_size, AddGoal, AppBar, AppBarOperation, AppBarStep, PositionGoal, PositionStage,
    RemoveGoal,
};
use crate::app_bar_laws::{lemma_after_is_wf, same_configuration};
use crate::error::AppBarError;
use crate::geometry::{strip, strip_fits};
use crate::lifecycle::{
    AppBarCall, DetachGoal, FinishGoal, Registration, RunGoal, SubclassOperation, SubclassReply,
    SubclassRequest, SubclassStep,
};
use crate::platform::{AppBarData, Reply, Request};
use crate::subclass::{Registry, SubclassState, SubclassedAppBar, WindowMessage};
use crate::types::Rect;
use crate::win32::{
    ABM_QUERYPOS, ABM_REMOVE, ABM_SETPOS, ABM_WINDOWPOSCHANGED, WM_DESTROY, WM_WINDOWPOSCHANGED,
};

verus! {

/// An operation that has been started stays one that can go on, whatever states
/// are added to the registry in the meantime.
pub proof fn law_operations_stay_valid(operation: SubclassOperation, before: nat, after: nat)
    requires
        operation.wf(before),
        before <= after,
    ensures
        operation.wf(after),
{
}

/// The state that an operation works on, if it works on one.
pub open spec fn own_state(operation: SubclassOperation) -> Option<usize> {
    match operation {
        SubclassOperation::Install { state, .. } => Some(state),
        SubclassOperation::Handle { state, .. } => Some(state),
        SubclassOperation::Run { state, .. } => Some(state),
        SubclassOperation::Drain { state, .. } => Some(state),
        SubclassOperation::Dispose { state, .. } => Some(state),
        SubclassOperation::Remove { state, .. } => Some(state),
        SubclassOperation::Release { .. } => None,
        SubclassOperation::CallNext => None,
    }
}

/// The state of the registration that an operation rolls back, if it does that.
pub open spec fn rolled_back_state(operation: SubclassOperation) -> Option<usize> {
    match operation {
        SubclassOperation::Remove {
            goal: DetachGoal::Rollback { state, .. },
            ..
        } => Some(state),
        SubclassOperation::Release {
            goal: DetachGoal::Rollback { state, .. },
            ..
        } => Some(state),
        _ => None,
    }
}

/// The window whose slot an operation may release, if it may release one.
pub open spec fn own_window(operation: SubclassOperation) -> Option<isize> {
    match operation {
        SubclassOperation::Install { hwnd, .. } => Some(hwnd),
        SubclassOperation::Remove { hwnd, .. } => Some(hwnd),
        _ => None,
    }
}

/// An operation leaves the states and the slots of other windows alone.
pub proof fn law_operations_keep_to_their_own_window(
    registry: Registry,
    operation: SubclassOperation,
    reply: SubclassReply,
    state: usize,
    hwnd: isize,
)
    requires
        registry.wf(),
        operation.wf(registry.states.len()),
        operation.awaits(reply),
        state < registry.states.len(),
    ensures
        ({
            let next = registry.after(operation, reply).0;
            &&& own_state(operation) != Some(state) && rolled_back_state(operation) != Some(state)
                ==> next.states[state as int] == registry.states[state as int]
            &&& own_window(operation) != Some(hwnd) ==> {
                &&& next.slots.contains_key(hwnd) == registry.slots.contains_key(hwnd)
                &&& registry.slots.contains_key(hwnd) ==> next.slots[hwnd] == registry.slots[hwnd]
            }
            &&& next.states.len() == registry.states.len()
        }),
{
}

/// Whatever is done with a registry, the callback message of a state stays what
/// it is.
pub proof fn law_callback_messages_of_states_stay(
    registry: Registry,
    operation: SubclassOperation,
    reply: SubclassReply,
    hwnd: isize,
    message: WindowMessage,
    registration: Registration,
    changed: usize,
    call: AppBarCall,
    state: usize,
)
    requires
        registry.wf(),
        operation.wf(registry.states.len()),
        operation.awaits(reply),
        changed < registry.states.len(),
        state < registry.states.len(),
    ensures
        ({
            let callback_message = registry.states[state as int].callback_message;
            let stepped = registry.after(operation, reply).0;
            let received = registry.receiving(hwnd, message).0;
            let registered = registry.registering(hwnd, registration).0;
            let changing = registry.changing(changed, call).0;
            &&& stepped.states[state as int].callback_message == callback_message
            &&& received.states[state as int].callback_message == callback_message
            &&& registered.states[state as int].callback_message == callback_message
            &&& changing.states[state as int].callback_message == callback_message
        }),
{
}

/// Whatever is done with a registry but to register the window anew, the window's
/// callback message stays what it is, also once its slot has been released.
pub proof fn law_windows_keep_their_callback_message(
    registry: Registry,
    operation: SubclassOperation,
    reply: SubclassReply,
    hwnd: isize,
    receiver: isize,
    message: WindowMessage,
    other: isize,
    registration: Registration,
    changed: usize,
    call: AppBarCall,
    callback_message: u32,
)
    requires
        registry.wf(),
        registry.consistent(),
        operation.wf(registry.states.len()),
        operation.awaits(reply),
        changed < registry.states.len(),
        other != hwnd || registry.occupied(hwnd),
    ensures
        ({
            let stepped = registry.after(operation, reply).0;
            let received = registry.receiving(receiver, message).0;
            let registered = registry.registering(other, registration).0;
            let changing = registry.changing(changed, call).0;
            let notified = registry.notified_by(hwnd, callback_message);
            &&& stepped.notified_by(hwnd, callback_message) == notified
            &&& received.notified_by(hwnd, callback_message) == notified
            &&& registered.notified_by(hwnd, callback_message) == notified
            &&& changing.notified_by(hwnd, callback_message) == notified
        }),
{
}

/// No operation of an AppBar changes its callback message.
proof fn lemma_after_keeps_callback_message(
    bar: AppBar,
    operation: AppBarOperation,
    reply: Reply,
)
    requires
        operation.awaits(reply),
    ensures
        bar.after(operation, reply).0.callback_message == bar.callback_message,
{
}

/// Taking a step keeps the states and the operation consistent: the AppBar of a
/// state is not at hand while an operation has it, and gone once its window is
/// detached; nothing is pending unless an operation is in progress; and an
/// AppBar, at hand or with an operation, has the callback message of its state.
pub proof fn law_steps_stay_consistent(
    registry: Registry,
    operation: SubclassOperation,
    reply: SubclassReply,
)
    requires
        registry.wf(),
        registry.consistent(),
        operation.wf(registry.states.len()),
        operation.consistent(registry),
        operation.awaits(reply),
    ensures
        ({
            let (next, step) = registry.after(operation, reply);
            &&& next.consistent()
            &&& step.consistent(next)
        }),
{
    match (operation, reply) {
        (
            SubclassOperation::Run { app_bar, operation, .. },
            SubclassReply::AppBar(reply),
        ) => lemma_after_keeps_callback_message(app_bar, operation, reply),
        (
            SubclassOperation::Drain { app_bar, operation, .. },
            SubclassReply::AppBar(reply),
        ) => lemma_after_keeps_callback_message(app_bar, operation, reply),
        (
            SubclassOperation::Dispose { app_bar, operation, .. },
            SubclassReply::AppBar(reply),
        ) => lemma_after_keeps_callback_message(app_bar, operation, reply),
        _ => {},
    }
}

/// An operation stays consistent with its state while other operations take
/// steps, messages are received, windows registered and AppBars changed.
pub proof fn law_waiting_operations_stay_consistent(
    registry: Registry,
    waiting: SubclassOperation,
    operation: SubclassOperation,
    reply: SubclassReply,
    hwnd: isize,
    message: WindowMessage,
    registration: Registration,
    changed: usize,
    call: AppBarCall,
)
    requires
        registry.wf(),
        waiting.wf(registry.states.len()),
        waiting.consistent(registry),
        operation.wf(registry.states.len()),
        operation.awaits(reply),
        changed < registry.states.len(),
    ensures
        waiting.consistent(registry.after(operation, reply).0),
        waiting.consistent(registry.receiving(hwnd, message).0),
        waiting.consistent(registry.registering(hwnd, registration).0),
        waiting.consistent(registry.changing(changed, call).0),
{
    if let Some(state) = own_state(waiting) {
        law_callback_messages_of_states_stay(
            registry,
            operation,
            reply,
            hwnd,
            message,
            registration,
            changed,
            call,
            state,
        );
    }
}

/// Receiving a message, registering a window, changing an AppBar that is
/// available and giving one back keep the states consistent, and what they start
/// is consistent too.
pub proof fn law_new_operations_are_consistent(
    registry: Registry,
    hwnd: isize,
    message: WindowMessage,
    registration: Registration,
    state: usize,
    call: AppBarCall,
    app_bar: AppBar,
    goal: FinishGoal,
)
    requires
        registry.wf(),
        registry.consistent(),
        registry.states.len() <= usize::MAX,
        state < registry.states.len(),
    ensures
        ({
            let (received, step) = registry.receiving(hwnd, message);
            received.consistent() && step.consistent(received)
        }),
        ({
            let (registered, step) = registry.registering(hwnd, registration);
            registered.consistent() && step.consistent(registered)
        }),
        registry.states[state as int].available() ==> ({
            let (changed, step) = registry.changing(state, call);
            changed.consistent() && step.consistent(changed)
        }),
        registry.states[state as int].owns(app_bar) ==> ({
            let (drained, step) = registry.drained(state, app_bar, goal);
            drained.consistent() && step.consistent(drained)
        }),
{
}

/// Once no operation is in progress for an attached window, its AppBar is at
/// hand, whatever steps are taken, messages received, windows registered and
/// AppBars changed. Only a registration that could not be rolled back leaves a
/// window attached without an AppBar.
pub proof fn law_app_bar_is_at_hand_outside_operations(
    registry: Registry,
    operation: SubclassOperation,
    reply: SubclassReply,
    hwnd: isize,
    message: WindowMessage,
    registration: Registration,
    changed: usize,
    call: AppBarCall,
    state: usize,
)
    requires
        registry.wf(),
        operation.wf(registry.states.len()),
        operation.awaits(reply),
        changed < registry.states.len(),
        state < registry.states.len(),
        registry.states[state as int].at_hand(),
    ensures
        rolled_back_state(operation) != Some(state) ==> registry.after(
            operation,
            reply,
        ).0.states[state as int].at_hand(),
        registry.receiving(hwnd, message).0.states[state as int].at_hand(),
        registry.registering(hwnd, registration).0.states[state as int].at_hand(),
        registry.registering(hwnd, registration).0.states.last().at_hand() || registry.occupied(
            hwnd,
        ),
        registry.changing(changed, call).0.states[state as int].at_hand(),
{
}

/// An operation that takes an AppBar and gives it back leaves the registry as it
/// was, but for what it did to the AppBar.
pub proof fn law_giving_an_app_bar_back_undoes_taking_it(
    registry: Registry,
    state: usize,
    app_bar: AppBar,
    goal: FinishGoal,
)
    requires
        registry.wf(),
        registry.consistent(),
        state < registry.states.len(),
        registry.states[state as int].available(),
    ensures
        ({
            let value = registry.states[state as int];
            let taken = registry.with_state(state, value.taken());
            &&& taken.consistent()
            &&& !taken.states[state as int].available()
            &&& taken.drained(state, app_bar, goal) == (
                registry.with_state(
                    state,
                    SubclassState { app_bar: Some(app_bar), ..value },
                ),
                SubclassStep::finishing(state, goal),
            )
            &&& taken.drained(state, value.app_bar->0, goal).0 == registry
        }),
{
    let value = registry.states[state as int];
    let taken = registry.with_state(state, value.taken());
    assert(taken.drained(state, app_bar, goal).0.states =~= registry.with_state(
        state,
        SubclassState { app_bar: Some(app_bar), ..value },
    ).states);
    assert(taken.drained(state, value.app_bar->0, goal).0.states =~= registry.states);
}

/// A window that is attached cannot be registered again: the attempt fails and
/// leaves the registry as it was.
pub proof fn law_duplicate_registration_keeps_the_original_state(
    registry: Registry,
    hwnd: isize,
    first: Registration,
    second: Registration,
)
    requires
        registry.wf(),
        registry.states.len() < usize::MAX,
    ensures
        ({
            let registered = registry.registering(hwnd, first).0;
            &&& registered.occupied(hwnd)
            &&& registered.registering(hwnd, second) == (
                registered,
                SubclassStep::Registered(Err(AppBarError::SubclassAlreadyRegistered)),
            )
        }),
{
}

/// If the subclass cannot be installed, the registration fails with that error
/// and the window's slot is free again; the slots of other windows and the
/// states there were are as they were before.
pub proof fn law_failed_installation_frees_the_slot(
    registry: Registry,
    hwnd: isize,
    registration: Registration,
    error: windows_result::Error,
)
    requires
        registry.wf(),
        registry.states.len() < usize::MAX,
        !registry.occupied(hwnd),
    ensures
        ({
            let (reserved, step) = registry.registering(hwnd, registration);
            let (end, last) = reserved.after(step->then, SubclassReply::Install(Err(error)));
            &&& step->request == (SubclassRequest::Install { hwnd })
            &&& last == SubclassStep::Registered(Err(AppBarError::Windows(error)))
            &&& end.slots == registry.slots.remove(hwnd)
            &&& end.states.drop_last() == registry.states
        }),
{
    let (reserved, step) = registry.registering(hwnd, registration);
    let (end, last) = reserved.after(step->then, SubclassReply::Install(Err(error)));
    assert(end.slots =~= registry.slots.remove(hwnd));
    assert(end.states.drop_last() =~= registry.states);
}

/// Detaching a window starts with the removal of its subclass, and changes
/// nothing before that has succeeded: if it fails, the registry is as it was,
/// and so is the AppBar. Only the window of a failed registration stops being
/// in an operation; it stays attached and keeps its slot.
pub proof fn law_failed_detach_keeps_the_state(
    registry: Registry,
    hwnd: isize,
    goal: DetachGoal,
    error: windows_result::Error,
)
    requires
        registry.wf(),
        registry.occupied(hwnd),
        goal.wf(registry.states.len()),
    ensures
        ({
            let state = registry.slots[hwnd];
            let (begun, step) = registry.detaching(hwnd, goal);
            let (end, last) = begun.after(step->then, SubclassReply::Remove(Err(error)));
            &&& begun == registry
            &&& step->request == (SubclassRequest::Remove { hwnd })
            &&& goal !is Rollback ==> end == registry
            &&& end.slots == registry.slots
            &&& end.occupied(hwnd)
            &&& end.states[state as int].app_bar == registry.states[state as int].app_bar
            &&& goal matches DetachGoal::Rollback { error: registration_error, .. } ==> last
                == SubclassStep::Registered(
                Err(
                    AppBarError::SubclassRegistrationCleanup {
                        registration_error: Box::new(registration_error),
                        subclass_error: error,
                    },
                ),
            )
        }),
{
}

/// Once the subclass of a window has been removed, the window's slot is free,
/// its state is detached and without an AppBar, and the AppBar that it had is
/// being removed from the Shell.
pub proof fn law_detach_releases_the_state_and_removes_the_app_bar(
    registry: Registry,
    hwnd: isize,
    goal: DetachGoal,
)
    requires
        registry.wf(),
        registry.occupied(hwnd),
        goal.wf(registry.states.len()),
    ensures
        ({
            let state = registry.slots[hwnd];
            let (begun, step) = registry.detaching(hwnd, goal);
            let (end, last) = begun.after(step->then, SubclassReply::Remove(Ok(())));
            &&& end.slots == registry.slots.remove(hwnd)
            &&& end.states[state as int] == registry.states[state as int].detached()
            &&& registry.states[state as int].app_bar matches Some(app_bar) ==> {
                &&& last is Call
                &&& last->request == SubclassRequest::AppBar(
                    Request::AppBarMessage {
                        message: ABM_REMOVE,
                        data: app_bar.message_data(app_bar.edge),
                    },
                )
            }
            &&& registry.states[state as int].app_bar is None ==> (end, last)
                == end.detach_ended(hwnd, goal, Ok(()))
        }),
{
}

/// A registration that fails after the subclass has been installed reports its
/// own error, once the subclass has been removed and the window's slot is free
/// again.
pub proof fn law_failed_registration_removes_the_subclass(
    registry: Registry,
    hwnd: isize,
    error: AppBarError,
)
    requires
        registry.wf(),
        registry.occupied(hwnd),
        registry.states[registry.slots[hwnd] as int].app_bar is None,
    ensures
        ({
            let goal = DetachGoal::Rollback { state: registry.slots[hwnd], error };
            let (begun, step) = registry.detaching(hwnd, goal);
            let (end, last) = begun.after(step->then, SubclassReply::Remove(Ok(())));
            &&& step->request == (SubclassRequest::Remove { hwnd })
            &&& last == SubclassStep::Registered(Err(error))
            &&& !end.slots.contains_key(hwnd)
        }),
{
}

/// What an operation goes on with: the reply to its call, and the registry as
/// it stands when the reply comes. Nothing is said of how the registry came to
/// stand so: other operations may have taken any steps since the call.
pub struct Event {
    pub registry: Registry,
    pub reply: SubclassReply,
}

/// The events at which `replies` come, one after the other, with the registry
/// standing as `registries` say.
pub open spec fn events_of(registries: Seq<Registry>, replies: Seq<SubclassReply>) -> Seq<Event> {
    Seq::new(replies.len(), |i: int| Event { registry: registries[i], reply: replies[i] })
}

/// How far an operation has come: the step that it is at, and the calls that it
/// has asked for, the one of that step included.
pub struct Trace {
    pub step: SubclassStep,
    pub requests: Seq<SubclassRequest>,
}

/// Whether an operation at `step` can go on with `events`, one after the other.
pub open spec fn follows(step: SubclassStep, events: Seq<Event>) -> bool
    decreases events.len(),
{
    events.len() == 0 || {
        &&& step is Call
        &&& events[0].registry.wf()
        &&& step->then.wf(events[0].registry.states.len())
        &&& step->then.awaits(events[0].reply)
        &&& follows(events[0].registry.after(step->then, events[0].reply).1, events.drop_first())
    }
}

/// How far an operation at `step` comes with `events`.
pub open spec fn trace(step: SubclassStep, events: Seq<Event>) -> Trace
    decreases events.len(),
{
    match step {
        SubclassStep::Call { request, then } => {
            if events.len() == 0 {
                Trace { step, requests: seq![request] }
            } else {
                let next = events[0].registry.after(then, events[0].reply).1;
                let rest = trace(next, events.drop_first());
                Trace { requests: seq![request] + rest.requests, ..rest }
            }
        },
        _ => Trace { step, requests: Seq::empty() },
    }
}

/// The registry as an operation at `step` leaves it after the last of `events`.
pub open spec fn left_by(step: SubclassStep, events: Seq<Event>) -> Registry
    recommends
        events.len() > 0,
    decreases events.len(),
{
    let (next_registry, next_step) = events[0].registry.after(step->then, events[0].reply);
    if events.len() <= 1 {
        next_registry
    } else {
        left_by(next_step, events.drop_first())
    }
}

/// Whether a message that is not consumed comes by `step` on its way to the next
/// procedure.
spec fn on_its_way(step: SubclassStep, hwnd: isize, message: WindowMessage) -> bool {
    let unconsumed = FinishGoal::Message { hwnd, message, consumed: false };
    step matches SubclassStep::Call { request, then } && match then {
        SubclassOperation::Run { operation, goal, .. } => {
            &&& request is AppBar
            &&& goal == (RunGoal::Message { hwnd, message })
            &&& operation is Notify
        },
        SubclassOperation::Drain { goal, .. } => request is AppBar && goal == unconsumed,
        SubclassOperation::Dispose { goal, .. } => request is AppBar && goal == unconsumed,
        SubclassOperation::Remove { hwnd: window, goal, .. } => {
            &&& request is Remove
            &&& window == hwnd
            &&& goal == (DetachGoal::Destroy { message })
        },
        SubclassOperation::Release { hwnd: window, goal, .. } => {
            &&& request is AppBar
            &&& window == hwnd
            &&& goal == (DetachGoal::Destroy { message })
        },
        SubclassOperation::CallNext => request == (SubclassRequest::CallNext { hwnd, message }),
        _ => false,
    }
}

/// Whether an operation has passed a message on once, and has ended with the
/// answer of the next procedure.
pub open spec fn passed_on(
    end: Trace,
    events: Seq<Event>,
    hwnd: isize,
    message: WindowMessage,
) -> bool {
    &&& end.requests.len() > 0
    &&& end.requests.last() == (SubclassRequest::CallNext { hwnd, message })
    &&& forall|i: int| 0 <= i < end.requests.len() - 1 ==> #[trigger] end.requests[i] !is CallNext
    &&& events.len() > 0
    &&& events.last().reply matches SubclassReply::CallNext(result) && end.step
        == SubclassStep::Replied(result)
}

proof fn lemma_passed_on(
    step: SubclassStep,
    events: Seq<Event>,
    hwnd: isize,
    message: WindowMessage,
)
    requires
        on_its_way(step, hwnd, message),
        follows(step, events),
    ensures
        trace(step, events).step is Call || passed_on(
            trace(step, events),
            events,
            hwnd,
            message,
        ),
    decreases events.len(),
{
    if events.len() > 0 {
        let registry = events[0].registry;
        let next = registry.after(step->then, events[0].reply).1;
        if step->then is CallNext {
            reveal_with_fuel(follows, 2);
            reveal_with_fuel(trace, 2);
            assert(events.drop_first().len() == 0);
        } else {
            assert(on_its_way(next, hwnd, message));
            lemma_passed_on(next, events.drop_first(), hwnd, message);
            let rest = trace(next, events.drop_first());
            let end = trace(step, events);
            if rest.step !is Call {
                assert(events.drop_first().last() == events.last());
                assert(end.requests.last() == rest.requests.last());
                assert forall|i: int|
                    0 <= i < end.requests.len() - 1 implies (
                #[trigger] end.requests[i]) !is CallNext by {
                    if i > 0 {
                        assert(end.requests[i] == rest.requests[i - 1]);
                    }
                }
            }
        }
    }
}

/// A message that is neither the callback message of its window nor `WM_DESTROY`,
/// such as `WM_CLOSE`, is passed on unchanged to the next procedure, once, and
/// that procedure's answer is returned. Whatever is done before that cannot keep
/// it back. A window that was never to be registered has no callback message.
pub proof fn law_other_messages_are_passed_on(
    registry: Registry,
    hwnd: isize,
    message: WindowMessage,
    events: Seq<Event>,
)
    requires
        registry.wf(),
        registry.consistent(),
        message.message != WM_DESTROY,
        !registry.notified_by(hwnd, message.message),
        follows(registry.receiving(hwnd, message).1, events),
    ensures
        ({
            let end = trace(registry.receiving(hwnd, message).1, events);
            end.step is Call || passed_on(end, events, hwnd, message)
        }),
{
    lemma_passed_on(registry.receiving(hwnd, message).1, events, hwnd, message);
}

/// Whether the AppBar fails to handle a message at some point of an operation at
/// `step` that goes on with `events`.
pub open spec fn handling_failed(step: SubclassStep, events: Seq<Event>) -> bool
    decreases events.len(),
{
    step is Call && events.len() > 0 && {
        ||| {
            &&& step->then matches SubclassOperation::Run { app_bar, operation, .. }
            &&& events[0].reply matches SubclassReply::AppBar(reply)
            &&& app_bar.after(operation, reply).1 matches AppBarStep::Handled(Err(_))
        }
        ||| handling_failed(
            events[0].registry.after(step->then, events[0].reply).1,
            events.drop_first(),
        )
    }
}

/// Whether a message that has been consumed comes by `step`.
spec fn is_consumed(step: SubclassStep, hwnd: isize, message: WindowMessage) -> bool {
    let consumed = FinishGoal::Message { hwnd, message, consumed: true };
    match step {
        SubclassStep::Call { request, then } => request is AppBar && match then {
            SubclassOperation::Drain { goal, .. } => goal == consumed,
            SubclassOperation::Dispose { goal, .. } => goal == consumed,
            _ => false,
        },
        SubclassStep::Replied(result) => result == 0,
        _ => false,
    }
}

/// Whether an operation has passed nothing on, and has ended, if it has, with the
/// answer zero.
pub open spec fn consumed(end: Trace) -> bool {
    &&& forall|i: int| 0 <= i < end.requests.len() ==> #[trigger] end.requests[i] !is CallNext
    &&& end.step is Call || end.step == SubclassStep::Replied(0)
}

proof fn lemma_consumed(
    step: SubclassStep,
    events: Seq<Event>,
    hwnd: isize,
    message: WindowMessage,
)
    requires
        is_consumed(step, hwnd, message),
        follows(step, events),
    ensures
        consumed(trace(step, events)),
        !handling_failed(step, events),
    decreases events.len(),
{
    if events.len() > 0 {
        let next = events[0].registry.after(step->then, events[0].reply).1;
        assert(is_consumed(next, hwnd, message));
        lemma_consumed(next, events.drop_first(), hwnd, message);
        lemma_requests_of_trace(step, events);
    }
}

/// The calls of an operation are the one of its step and those that follow.
proof fn lemma_requests_of_trace(step: SubclassStep, events: Seq<Event>)
    requires
        step is Call,
        events.len() > 0,
    ensures
        ({
            let rest = trace(
                events[0].registry.after(step->then, events[0].reply).1,
                events.drop_first(),
            );
            let end = trace(step, events);
            &&& end.step == rest.step
            &&& end.requests.len() == rest.requests.len() + 1
            &&& end.requests[0] == step->request
            &&& forall|i: int|
                0 < i < end.requests.len() ==> #[trigger] end.requests[i] == rest.requests[i - 1]
        }),
{
}

/// Whether an operation at `step` does with a notification what it is to do: it is
/// consumed, unless the handling fails; then it is passed on.
pub open spec fn notification_taken(
    step: SubclassStep,
    events: Seq<Event>,
    hwnd: isize,
    message: WindowMessage,
) -> bool {
    let end = trace(step, events);
    if handling_failed(step, events) {
        end.step is Call || passed_on(end, events, hwnd, message)
    } else {
        consumed(end)
    }
}

/// What the AppBar does with a notification that asks for a repositioning.
proof fn lemma_notification(
    step: SubclassStep,
    events: Seq<Event>,
    hwnd: isize,
    message: WindowMessage,
)
    requires
        step is Call,
        step->request is AppBar,
        step->then matches SubclassOperation::Run { operation, goal, .. } && goal == (
        RunGoal::Message { hwnd, message }) && (operation matches AppBarOperation::Position {
            goal: PositionGoal::Message,
            ..
        }),
        follows(step, events),
    ensures
        notification_taken(step, events, hwnd, message),
    decreases events.len(),
{
    if events.len() > 0 {
        let registry = events[0].registry;
        let next = registry.after(step->then, events[0].reply).1;
        let app_bar = step->then->Run_app_bar;
        let bar_step = app_bar.after(step->then->Run_operation, events[0].reply->AppBar_0).1;
        lemma_requests_of_trace(step, events);
        match bar_step {
            AppBarStep::Call { .. } => {
                lemma_notification(next, events.drop_first(), hwnd, message);
                if events.len() > 1 {
                    assert(events.drop_first().last() == events.last());
                }
                let rest = trace(next, events.drop_first());
                let end = trace(step, events);
                if passed_on(rest, events.drop_first(), hwnd, message) {
                    assert(end.requests.last() == rest.requests.last());
                }
            },
            AppBarStep::Handled(Err(_)) => {
                assert(on_its_way(next, hwnd, message));
                lemma_passed_on(next, events.drop_first(), hwnd, message);
                let rest = trace(next, events.drop_first());
                let end = trace(step, events);
                if rest.step !is Call {
                    assert(events.drop_first().last() == events.last());
                    assert(end.requests.last() == rest.requests.last());
                }
            },
            _ => {
                assert(is_consumed(next, hwnd, message));
                lemma_consumed(next, events.drop_first(), hwnd, message);
            },
        }
    }
}

/// A callback message to a window whose AppBar is at hand, with an operation or
/// gone, is answered with zero and never passed on, unless the AppBar fails to handle
/// it. Then it is passed on unchanged to the next procedure, once, and that
/// procedure's answer is returned.
pub proof fn law_notifications_are_consumed(
    registry: Registry,
    hwnd: isize,
    message: WindowMessage,
    events: Seq<Event>,
)
    requires
        registry.wf(),
        registry.consistent(),
        registry.notified_by(hwnd, message.message),
        registry.slots.contains_key(hwnd) ==> {
            let value = registry.states[registry.slots[hwnd] as int];
            value.operation_in_progress || value.app_bar is Some
        },
        message.message != WM_DESTROY,
        follows(registry.receiving(hwnd, message).1, events),
    ensures
        notification_taken(registry.receiving(hwnd, message).1, events, hwnd, message),
{
    let step = registry.receiving(hwnd, message).1;
    if step is Call && step->then is Run {
        lemma_notification(step, events, hwnd, message);
    } else {
        lemma_consumed(step, events, hwnd, message);
    }
}

/// `WM_DESTROY` is passed on unchanged to the next procedure, once, and that
/// procedure's answer is returned, whether or not the window could be detached.
pub proof fn law_destruction_is_passed_on(
    registry: Registry,
    hwnd: isize,
    message: WindowMessage,
    events: Seq<Event>,
)
    requires
        registry.wf(),
        message.message == WM_DESTROY,
        follows(registry.receiving(hwnd, message).1, events),
    ensures
        ({
            let end = trace(registry.receiving(hwnd, message).1, events);
            end.step is Call || passed_on(end, events, hwnd, message)
        }),
{
    lemma_passed_on(registry.receiving(hwnd, message).1, events, hwnd, message);
}

/// A message that reaches a window while an operation is in progress for it is
/// answered or passed on at once, without a call for the AppBar. What it asks
/// for is noted, what was noted before stays noted, and nothing else of the
/// state changes.
pub proof fn law_messages_during_an_operation_are_noted(
    registry: Registry,
    hwnd: isize,
    message: WindowMessage,
)
    requires
        registry.wf(),
        registry.slots.contains_key(hwnd),
        registry.states[registry.slots[hwnd] as int].operation_in_progress,
        message.message != WM_DESTROY,
    ensures
        ({
            let state = registry.slots[hwnd];
            let value = registry.states[state as int];
            let (next, step) = registry.receiving(hwnd, message);
            let noted = next.states[state as int];
            &&& step == if message.message == value.callback_message {
                SubclassStep::Replied(0)
            } else {
                SubclassStep::forwarding(hwnd, message)
            }
            &&& noted.pending_reposition == (value.pending_reposition || value.asks_reposition(
                message.message,
                message.wparam,
            ))
            &&& noted.pending_window_position_changed == (value.pending_window_position_changed
                || value.tells_position(message.message))
            &&& noted.nothing_pending() == value.nothing_pending()
            &&& next.slots == registry.slots
        }),
{
}

/// The AppBar of an operation that has it, after `reply`.
pub open spec fn app_bar_after(operation: SubclassOperation, reply: SubclassReply) -> AppBar {
    match (operation, reply) {
        (
            SubclassOperation::Run { app_bar, operation, .. },
            SubclassReply::AppBar(reply),
        ) => app_bar.after(operation, reply).0,
        (
            SubclassOperation::Drain { app_bar, operation, .. },
            SubclassReply::AppBar(reply),
        ) => app_bar.after(operation, reply).0,
        _ => arbitrary(),
    }
}

/// An operation that has an AppBar ends for its state only when nothing is
/// pending. Then, unless the window has been detached, the AppBar is at hand
/// again.
pub proof fn law_operations_end_with_nothing_pending(
    registry: Registry,
    operation: SubclassOperation,
    reply: SubclassReply,
)
    requires
        registry.wf(),
        operation is Run || operation is Drain,
        operation.wf(registry.states.len()),
        operation.awaits(reply),
        registry.states[own_state(operation)->0 as int].operation_in_progress,
    ensures
        ({
            let state = own_state(operation)->0;
            let next = registry.after(operation, reply).0.states[state as int];
            !next.operation_in_progress ==> {
                &&& !next.pending_reposition
                &&& !next.pending_window_position_changed
                &&& next.attached == registry.states[state as int].attached
                &&& next.attached ==> next.app_bar == Some(app_bar_after(operation, reply))
            }
        }),
{
}

/// What is pending for a window is not lost. When a repositioning stops being
/// pending, its AppBar starts to be repositioned, unless it is not registered.
/// When the news of a moved window stop being pending, they are sent to the
/// Shell, or will be after that repositioning, unless the AppBar is not
/// registered.
pub proof fn law_pending_notifications_are_handled(
    registry: Registry,
    operation: SubclassOperation,
    reply: SubclassReply,
)
    requires
        registry.wf(),
        operation is Run || operation is Drain,
        operation.wf(registry.states.len()),
        operation.awaits(reply),
        operation.consistent(registry),
        registry.states[own_state(operation)->0 as int].callback_message != WM_WINDOWPOSCHANGED,
        app_bar_after(operation, reply).registered,
    ensures
        ({
            let state = own_state(operation)->0;
            let bar = app_bar_after(operation, reply);
            let value = registry.states[state as int];
            let (next, step) = registry.after(operation, reply);
            let pending = next.states[state as int];
            let handled = step->then->Drain_operation;
            &&& value.pending_reposition && !pending.pending_reposition ==> {
                &&& step is Call
                &&& step->then is Drain
                &&& handled == (AppBarOperation::Position {
                    target: bar.target(),
                    stage: PositionStage::Monitor,
                    goal: PositionGoal::Message,
                })
                &&& step->request == SubclassRequest::AppBar(
                    Request::MonitorRect { index: bar.monitor_index },
                )
            }
            &&& value.pending_window_position_changed && !pending.pending_window_position_changed
                ==> {
                &&& step is Call
                &&& step->then is Drain
                &&& step->then->Drain_notify || (step->request matches SubclassRequest::AppBar(
                    request,
                ) && request.sends(ABM_WINDOWPOSCHANGED))
            }
            &&& operation is Drain && operation->Drain_notify ==> {
                &&& step is Call
                &&& step->then is Drain
                &&& step->then->Drain_notify || (step->request matches SubclassRequest::AppBar(
                    request,
                ) && request.sends(ABM_WINDOWPOSCHANGED))
            }
        }),
{
}

/// Handling what is pending does not change how an operation ends: whatever the
/// replies are, and whatever happens in between, it ends with the result that it
/// had before.
pub proof fn law_pending_notifications_keep_the_result(step: SubclassStep, events: Seq<Event>)
    requires
        step is Call,
        step->then is Drain || step->then is Dispose,
        finish_goal(step->then) !is Message,
        follows(step, events),
    ensures
        ({
            let end = trace(step, events).step;
            let state = own_state(step->then)->0;
            if end is Call {
                &&& end->then is Drain || end->then is Dispose
                &&& finish_goal(end->then) == finish_goal(step->then)
                &&& own_state(end->then) == Some(state)
            } else {
                end == SubclassStep::finishing(state, finish_goal(step->then))
            }
        }),
    decreases events.len(),
{
    if events.len() > 0 {
        let next = events[0].registry.after(step->then, events[0].reply).1;
        if next is Call {
            law_pending_notifications_keep_the_result(next, events.drop_first());
        } else {
            reveal_with_fuel(follows, 2);
            reveal_with_fuel(trace, 2);
        }
    }
}

/// What remains to be done after an operation that handles what is pending.
pub open spec fn finish_goal(operation: SubclassOperation) -> FinishGoal {
    match operation {
        SubclassOperation::Drain { goal, .. } => goal,
        SubclassOperation::Dispose { goal, .. } => goal,
        _ => arbitrary(),
    }
}

/// How far an operation has come that no other operation disturbs.
pub struct QuietRun {
    pub registry: Registry,
    pub step: SubclassStep,
    pub requests: Seq<SubclassRequest>,
}

/// How far an operation at `step` comes with `replies` when no other operation
/// takes a step in between.
pub open spec fn quiet_run(
    registry: Registry,
    step: SubclassStep,
    replies: Seq<SubclassReply>,
) -> QuietRun
    decreases replies.len(),
{
    match step {
        SubclassStep::Call { request, then } => {
            if replies.len() == 0 {
                QuietRun { registry, step, requests: seq![request] }
            } else {
                let (next_registry, next_step) = registry.after(then, replies[0]);
                let rest = quiet_run(next_registry, next_step, replies.drop_first());
                QuietRun { requests: seq![request] + rest.requests, ..rest }
            }
        },
        _ => QuietRun { registry, step, requests: Seq::empty() },
    }
}

/// Whether `replies` are replies that an operation at `step` can get, one after
/// the other, when no other operation takes a step in between.
pub open spec fn quiet_follows(
    registry: Registry,
    step: SubclassStep,
    replies: Seq<SubclassReply>,
) -> bool
    decreases replies.len(),
{
    replies.len() == 0 || {
        &&& step is Call
        &&& step->then.awaits(replies[0])
        &&& {
            let (next_registry, next_step) = registry.after(step->then, replies[0]);
            quiet_follows(next_registry, next_step, replies.drop_first())
        }
    }
}

/// The number of calls made at most once an operation has given its AppBar back.
pub open spec fn calls_to_finish(goal: FinishGoal) -> nat {
    match goal {
        FinishGoal::Message { consumed: false, .. } => 1,
        _ => 0,
    }
}

/// The number of calls made at most once a window has been detached.
pub open spec fn calls_after_detaching(goal: DetachGoal) -> nat {
    match goal {
        DetachGoal::Rollback { .. } => 0,
        DetachGoal::Unregister => 3,
        DetachGoal::Drop { .. } => 0,
        DetachGoal::Destroy { .. } => 1,
    }
}

/// The number of calls made at most to tell the Shell of a moved window, if
/// `notify`.
pub open spec fn calls_for_news(notify: bool) -> nat {
    if notify {
        1
    } else {
        0
    }
}

/// The number of calls made at most to handle what is pending for a state.
pub open spec fn calls_for_pending(value: SubclassState) -> nat {
    let reposition: nat = if value.pending_reposition {
        4
    } else {
        0
    };
    reposition + calls_for_news(value.pending_window_position_changed)
}

/// The number of calls made at most once an AppBar has run an operation, but for
/// what is pending.
pub open spec fn calls_after_running(goal: RunGoal) -> nat {
    match goal {
        RunGoal::Register { .. } => 3,
        RunGoal::Operation => 1,
        RunGoal::Message { .. } => 2,
    }
}

/// The number of calls that an operation makes at most, the one that it waits
/// for included, when no other operation takes a step in between.
pub open spec fn calls_left(registry: Registry, step: SubclassStep) -> nat {
    match step {
        SubclassStep::Call { then, .. } => match then {
            SubclassOperation::Install { state, .. } => 13 + calls_for_pending(
                registry.states[state as int],
            ),
            SubclassOperation::Handle { state, .. } => 12 + calls_for_pending(
                registry.states[state as int],
            ),
            SubclassOperation::Run { state, operation, goal, .. } => operation.calls_left()
                + calls_for_pending(registry.states[state as int]) + calls_after_running(goal),
            SubclassOperation::Drain { state, operation, notify, goal, .. } => {
                operation.calls_left() + calls_for_news(notify) + calls_for_pending(
                    registry.states[state as int],
                ) + 1 + calls_to_finish(goal)
            },
            SubclassOperation::Dispose { operation, goal, .. } => operation.calls_left()
                + calls_to_finish(goal),
            SubclassOperation::Remove { goal, .. } => 3 + calls_after_detaching(goal),
            SubclassOperation::Release { operation, goal, .. } => operation.calls_left()
                + calls_after_detaching(goal),
            SubclassOperation::CallNext => 1,
        },
        _ => 0,
    }
}

/// Whether an operation that rolls a registration back comes by `step`.
spec fn in_rollback(step: SubclassStep) -> bool {
    match step {
        SubclassStep::Call { then, .. } => match then {
            SubclassOperation::Remove { goal, .. } => goal is Rollback,
            SubclassOperation::Release { goal, .. } => goal is Rollback,
            _ => false,
        },
        SubclassStep::Registered(Err(_)) => true,
        _ => false,
    }
}

proof fn lemma_rollback_ends_with_an_error(
    registry: Registry,
    step: SubclassStep,
    replies: Seq<SubclassReply>,
)
    requires
        in_rollback(step),
        quiet_follows(registry, step, replies),
    ensures
        in_rollback(quiet_run(registry, step, replies).step),
    decreases replies.len(),
{
    if replies.len() > 0 {
        let (next_registry, next_step) = registry.after(step->then, replies[0]);
        lemma_rollback_ends_with_an_error(next_registry, next_step, replies.drop_first());
    }
}

/// The registry that a registration for the window leaves: its slot is taken by a
/// new state that is attached, with nothing pending, no operation in progress and
/// the AppBar for `window` at hand, registered and configured as asked for.
/// Everything else is as it was in `registry`.
pub open spec fn registered(
    registry: Registry,
    hwnd: isize,
    registration: Registration,
    window: isize,
) -> Registry {
    registry.reserving(
        hwnd,
        SubclassState {
            app_bar: Some(registered_app_bar(registration, window)),
            callback_message: registration.callback_message,
            attached: true,
            operation_in_progress: false,
            pending_reposition: false,
            pending_window_position_changed: false,
        },
    )
}

/// Whether the AppBar of a registration comes by `bar` and `operation`.
spec fn in_registration(bar: AppBar, operation: AppBarOperation) -> bool {
    match operation {
        AppBarOperation::CheckMonitor { goal, .. } => goal is Register,
        AppBarOperation::New { goal } => goal is Register,
        AppBarOperation::Position { goal, .. } => bar.registered && goal == PositionGoal::Add(
            AddGoal::Register,
        ),
        AppBarOperation::Remove { goal } => match goal {
            RemoveGoal::Rollback { goal, .. } => goal is Register,
            RemoveGoal::Drop { result } => result is Err,
            _ => false,
        },
        _ => false,
    }
}

proof fn lemma_registration_step(bar: AppBar, operation: AppBarOperation, reply: Reply)
    requires
        in_registration(bar, operation),
        operation.awaits(reply),
    ensures
        ({
            let (next, step) = bar.after(operation, reply);
            &&& same_configuration(next, bar)
            &&& match step {
                AppBarStep::Call { then, .. } => in_registration(next, then),
                AppBarStep::Finished(Ok(())) => next.registered,
                AppBarStep::Finished(Err(_)) => true,
                AppBarStep::Handled(_) => false,
            }
        }),
{
}

proof fn lemma_registration_run(
    registry: Registry,
    hwnd: isize,
    registration: Registration,
    window: isize,
    bar: AppBar,
    step: SubclassStep,
    replies: Seq<SubclassReply>,
)
    requires
        registry.states.len() < usize::MAX,
        step is Call,
        step->then matches SubclassOperation::Run { state, app_bar, operation, goal } && {
            &&& state == registry.states.len()
            &&& app_bar == bar
            &&& in_registration(bar, operation)
            &&& goal == (RunGoal::Register { hwnd })
        },
        same_configuration(
            bar,
            AppBar::unregistered(
                window,
                registration.monitor_index,
                registration.edge,
                registration.size,
                registration.callback_message,
            ),
        ),
        quiet_follows(
            registry.reserving(
                hwnd,
                SubclassState::registering_state(registration.callback_message),
            ),
            step,
            replies,
        ),
    ensures
        ({
            let reserved = registry.reserving(
                hwnd,
                SubclassState::registering_state(registration.callback_message),
            );
            let end = quiet_run(reserved, step, replies);
            end.step is Call || in_rollback(end.step) || {
                &&& end.step == SubclassStep::Registered(
                    Ok(SubclassedAppBar { hwnd, state: registry.states.len() as usize }),
                )
                &&& end.registry == registered(registry, hwnd, registration, window)
            }
        }),
    decreases replies.len(),
{
    let value = SubclassState::registering_state(registration.callback_message);
    let reserved = registry.reserving(hwnd, value);
    if replies.len() > 0 {
        let operation = step->then->Run_operation;
        let reply = replies[0]->AppBar_0;
        let (next_bar, bar_step) = bar.after(operation, reply);
        let (next_registry, next_step) = reserved.after(step->then, replies[0]);
        lemma_registration_step(bar, operation, reply);
        match bar_step {
            AppBarStep::Call { .. } => {
                lemma_registration_run(
                    registry,
                    hwnd,
                    registration,
                    window,
                    next_bar,
                    next_step,
                    replies.drop_first(),
                );
            },
            AppBarStep::Finished(Err(_)) => {
                assert(in_rollback(next_step));
                lemma_rollback_ends_with_an_error(next_registry, next_step, replies.drop_first());
            },
            _ => {
                reveal_with_fuel(quiet_follows, 2);
                reveal_with_fuel(quiet_run, 2);
                assert(next_registry.states =~= registered(
                    registry,
                    hwnd,
                    registration,
                    window,
                ).states);
            },
        }
    }
}

/// An undisturbed registration that ends with success adds to the registry the
/// state of the [`SubclassedAppBar`] with which it ends, in the window's slot, and
/// changes nothing else. That state is attached, with nothing pending and no
/// operation in progress, and its AppBar is registered and configured as asked
/// for, for the window that was found.
pub proof fn law_undisturbed_registration_only_adds_its_state(
    registry: Registry,
    hwnd: isize,
    registration: Registration,
    replies: Seq<SubclassReply>,
)
    requires
        registry.wf(),
        registry.states.len() < usize::MAX,
        ({
            let (reserved, step) = registry.registering(hwnd, registration);
            quiet_follows(reserved, step, replies)
        }),
    ensures
        ({
            let (reserved, step) = registry.registering(hwnd, registration);
            let end = quiet_run(reserved, step, replies);
            end.step matches SubclassStep::Registered(Ok(app_bar)) ==> {
                &&& !registry.occupied(hwnd)
                &&& valid_size(registration.size)
                &&& app_bar == (SubclassedAppBar { hwnd, state: registry.states.len() as usize })
                &&& replies.len() >= 2
                &&& replies[1] matches SubclassReply::WindowHandle(Ok(window)) && end.registry
                    == registered(registry, hwnd, registration, window)
                &&& end.registry.occupied(hwnd)
                &&& end.registry.slots[hwnd] == app_bar.state
                &&& app_bar.is_available(end.registry)
            }
        }),
{
    let (reserved, step) = registry.registering(hwnd, registration);
    reveal_with_fuel(quiet_follows, 3);
    reveal_with_fuel(quiet_run, 3);
    if step is Call && replies.len() > 0 && replies[0]->Install_0 is Ok {
        let (installed, second) = reserved.after(step->then, replies[0]);
        let after_install = replies.drop_first();
        if !valid_size(registration.size) {
            lemma_rollback_ends_with_an_error(installed, second, after_install);
        } else if after_install.len() > 0 {
            let (found, third) = installed.after(second->then, after_install[0]);
            let rest = after_install.drop_first();
            assert(after_install[0] == replies[1]);
            match after_install[0]->WindowHandle_0 {
                Ok(window) => {
                    lemma_registration_run(
                        registry,
                        hwnd,
                        registration,
                        window,
                        third->then->Run_app_bar,
                        third,
                        rest,
                    );
                },
                Err(_) => {
                    lemma_rollback_ends_with_an_error(found, third, rest);
                },
            }
        }
    }
}

/// The AppBar that a registration for `window` makes.
pub open spec fn registered_app_bar(registration: Registration, window: isize) -> AppBar {
    AppBar {
        hwnd: window,
        monitor_index: registration.monitor_index,
        edge: registration.edge,
        size: registration.size as i32,
        callback_message: registration.callback_message,
        registered: true,
    }
}

/// Whether in the registry of each event `state` is in the window's slot and
/// attached.
pub open spec fn stays_attached(events: Seq<Event>, hwnd: isize, state: usize) -> bool {
    forall|i: int|
        0 <= i < events.len() ==> {
            let registry = (#[trigger] events[i]).registry;
            &&& registry.slots.contains_key(hwnd)
            &&& registry.slots[hwnd] == state
            &&& registry.states[state as int].attached
        }
}

/// Whether an operation leaves what a registration is to leave: it has ended with
/// the [`SubclassedAppBar`] of `state`, and given `app_bar` back to that state, of
/// which nothing is pending any more. Whatever else the registry holds is as the
/// last event found it.
pub open spec fn registration_left(
    step: SubclassStep,
    events: Seq<Event>,
    hwnd: isize,
    state: usize,
    app_bar: AppBar,
) -> bool {
    let found = events.last().registry;
    &&& state < found.states.len()
    &&& trace(step, events).step == SubclassStep::Registered(Ok(SubclassedAppBar { hwnd, state }))
    &&& left_by(step, events) == found.with_state(
        state,
        SubclassState {
            app_bar: Some(app_bar),
            operation_in_progress: false,
            ..found.states[state as int].nothing_pending()
        },
    )
}

proof fn lemma_disturbed_rollback_ends_with_an_error(step: SubclassStep, events: Seq<Event>)
    requires
        in_rollback(step),
        follows(step, events),
    ensures
        in_rollback(trace(step, events).step),
    decreases events.len(),
{
    if events.len() > 0 {
        let next = events[0].registry.after(step->then, events[0].reply).1;
        lemma_disturbed_rollback_ends_with_an_error(next, events.drop_first());
    }
}

/// The events that follow one that leaves the window attached leave it so too.
proof fn lemma_stays_attached(events: Seq<Event>, hwnd: isize, state: usize)
    requires
        events.len() > 0,
        stays_attached(events, hwnd, state),
    ensures
        stays_attached(events.drop_first(), hwnd, state),
        events[0].registry.slots.contains_key(hwnd),
        events[0].registry.slots[hwnd] == state,
        events[0].registry.states[state as int].attached,
        events.len() > 1 ==> events.drop_first().last() == events.last(),
        events.len() == 1 ==> events[0] == events.last(),
{
    assert(events[0].registry.slots.contains_key(hwnd));
    assert forall|i: int| 0 <= i < events.drop_first().len() implies {
        let registry = (#[trigger] events.drop_first()[i]).registry;
        &&& registry.slots.contains_key(hwnd)
        &&& registry.slots[hwnd] == state
        &&& registry.states[state as int].attached
    } by {
        assert(events.drop_first()[i] == events[i + 1]);
    }
}

/// Whether a registration that handles what is pending comes by `step` with
/// `app_bar`.
spec fn draining_registration(
    step: SubclassStep,
    hwnd: isize,
    state: usize,
    app_bar: AppBar,
) -> bool {
    step matches SubclassStep::Call { then, .. } && (then matches SubclassOperation::Drain {
        state: own,
        app_bar: bar,
        operation,
        goal,
        ..
    } && {
        &&& own == state
        &&& bar == app_bar
        &&& goal == (FinishGoal::Registered { hwnd })
        &&& operation is Notify || (operation matches AppBarOperation::Position {
            goal: PositionGoal::Message,
            ..
        })
    })
}

/// A registration that starts to handle what is pending goes on with that, or has
/// given its AppBar back.
proof fn lemma_drained_registration(
    registry: Registry,
    hwnd: isize,
    state: usize,
    app_bar: AppBar,
)
    requires
        registry.wf(),
        state < registry.states.len(),
        registry.states[state as int].attached,
    ensures
        ({
            let (next, step) = registry.drained(
                state,
                app_bar,
                FinishGoal::Registered { hwnd },
            );
            draining_registration(step, hwnd, state, app_bar) || {
                &&& step == SubclassStep::Registered(Ok(SubclassedAppBar { hwnd, state }))
                &&& next == registry.with_state(
                    state,
                    SubclassState {
                        app_bar: Some(app_bar),
                        operation_in_progress: false,
                        ..registry.states[state as int].nothing_pending()
                    },
                )
            }
        }),
{
    let value = registry.states[state as int];
    let (next, step) = registry.drained(state, app_bar, FinishGoal::Registered { hwnd });
    if step !is Call {
        assert(next.states =~= registry.states.update(
            state as int,
            SubclassState {
                app_bar: Some(app_bar),
                operation_in_progress: false,
                ..value.nothing_pending()
            },
        ));
    }
}

proof fn lemma_draining_registration(
    step: SubclassStep,
    events: Seq<Event>,
    hwnd: isize,
    state: usize,
    app_bar: AppBar,
)
    requires
        draining_registration(step, hwnd, state, app_bar),
        follows(step, events),
        stays_attached(events, hwnd, state),
    ensures
        trace(step, events).step is Call || registration_left(step, events, hwnd, state, app_bar),
    decreases events.len(),
{
    if events.len() > 0 {
        let registry = events[0].registry;
        let operation = step->then->Drain_operation;
        let (bar, bar_step) = app_bar.after(operation, events[0].reply->AppBar_0);
        let next = registry.after(step->then, events[0].reply).1;
        lemma_stays_attached(events, hwnd, state);
        assert(bar == app_bar);
        lemma_drained_registration(registry, hwnd, state, app_bar);
        if next is Call {
            assert(draining_registration(next, hwnd, state, app_bar));
            lemma_draining_registration(next, events.drop_first(), hwnd, state, app_bar);
        } else {
            reveal_with_fuel(follows, 2);
            reveal_with_fuel(trace, 2);
        }
    }
}

/// Whether the AppBar of a registration for `window` comes by `step`.
spec fn running_registration(
    step: SubclassStep,
    hwnd: isize,
    state: usize,
    registration: Registration,
    window: isize,
) -> bool {
    step matches SubclassStep::Call { then, .. } && (then matches SubclassOperation::Run {
        state: own,
        app_bar,
        operation,
        goal,
    } && {
        &&& own == state
        &&& same_configuration(app_bar, registered_app_bar(registration, window))
        &&& in_registration(app_bar, operation)
        &&& goal == (RunGoal::Register { hwnd })
    })
}

proof fn lemma_running_registration(
    step: SubclassStep,
    events: Seq<Event>,
    hwnd: isize,
    state: usize,
    registration: Registration,
    window: isize,
)
    requires
        running_registration(step, hwnd, state, registration, window),
        follows(step, events),
        stays_attached(events, hwnd, state),
    ensures
        ({
            let end = trace(step, events).step;
            end is Call || in_rollback(end) || registration_left(
                step,
                events,
                hwnd,
                state,
                registered_app_bar(registration, window),
            )
        }),
    decreases events.len(),
{
    if events.len() > 0 {
        let registry = events[0].registry;
        let bar = step->then->Run_app_bar;
        let operation = step->then->Run_operation;
        let reply = events[0].reply->AppBar_0;
        let (next_bar, bar_step) = bar.after(operation, reply);
        let next = registry.after(step->then, events[0].reply).1;
        lemma_registration_step(bar, operation, reply);
        lemma_stays_attached(events, hwnd, state);
        match bar_step {
            AppBarStep::Call { .. } => lemma_running_registration(
                next,
                events.drop_first(),
                hwnd,
                state,
                registration,
                window,
            ),
            AppBarStep::Finished(Err(_)) => {
                assert(in_rollback(next));
                lemma_disturbed_rollback_ends_with_an_error(next, events.drop_first());
            },
            _ => {
                assert(next_bar == registered_app_bar(registration, window));
                lemma_drained_registration(registry, hwnd, state, next_bar);
                if next is Call {
                    lemma_draining_registration(
                        next,
                        events.drop_first(),
                        hwnd,
                        state,
                        next_bar,
                    );
                } else {
                    reveal_with_fuel(follows, 2);
                    reveal_with_fuel(trace, 2);
                }
            },
        }
    }
}

/// Whatever other operations do in between, as long as the window stays attached:
/// a registration that ends with success ends with the [`SubclassedAppBar`] of the
/// state that it reserved. That state is in the window's slot and attached, with
/// nothing pending and no operation in progress, and its AppBar is at hand,
/// registered and configured as asked for, for the window that was found. The last
/// step of the registration changes nothing else.
pub proof fn law_successful_registration_leaves_a_registered_app_bar(
    registry: Registry,
    hwnd: isize,
    registration: Registration,
    events: Seq<Event>,
)
    requires
        registry.wf(),
        registry.states.len() < usize::MAX,
        follows(registry.registering(hwnd, registration).1, events),
        stays_attached(events, hwnd, registry.states.len() as usize),
    ensures
        ({
            let step = registry.registering(hwnd, registration).1;
            let state = registry.states.len() as usize;
            trace(step, events).step is Registered && trace(step, events).step->Registered_0 is Ok
                ==> {
                let left = left_by(step, events);
                let value = left.states[state as int];
                &&& !registry.occupied(hwnd)
                &&& valid_size(registration.size)
                &&& events.len() >= 2
                &&& events[1].reply matches SubclassReply::WindowHandle(Ok(window))
                    && registration_left(
                    step,
                    events,
                    hwnd,
                    state,
                    registered_app_bar(registration, window),
                ) && value.app_bar == Some(registered_app_bar(registration, window))
                &&& left.slots.contains_key(hwnd)
                &&& left.slots[hwnd] == state
                &&& value.attached
                &&& !value.operation_in_progress
                &&& !value.pending_reposition
                &&& !value.pending_window_position_changed
            }
        }),
{
    let step = registry.registering(hwnd, registration).1;
    let state = registry.states.len() as usize;
    reveal_with_fuel(follows, 3);
    reveal_with_fuel(trace, 3);
    if step is Call && events.len() > 0 && events[0].reply->Install_0 is Ok {
        let second = events[0].registry.after(step->then, events[0].reply).1;
        let after_install = events.drop_first();
        lemma_stays_attached(events, hwnd, state);
        if !valid_size(registration.size) {
            lemma_disturbed_rollback_ends_with_an_error(second, after_install);
        } else if after_install.len() > 0 {
            let third = after_install[0].registry.after(second->then, after_install[0].reply).1;
            let rest = after_install.drop_first();
            assert(after_install[0] == events[1]);
            lemma_stays_attached(after_install, hwnd, state);
            match after_install[0].reply->WindowHandle_0 {
                Ok(window) => {
                    assert(running_registration(third, hwnd, state, registration, window));
                    lemma_running_registration(third, rest, hwnd, state, registration, window);
                    if rest.len() > 0 {
                        reveal_with_fuel(left_by, 3);
                        assert(events.last() == rest.last());
                        lemma_stays_attached_at_the_end(events, hwnd, state);
                    }
                },
                Err(_) => {
                    lemma_disturbed_rollback_ends_with_an_error(third, rest);
                },
            }
        }
    }
}

proof fn lemma_stays_attached_at_the_end(events: Seq<Event>, hwnd: isize, state: usize)
    requires
        events.len() > 0,
        stays_attached(events, hwnd, state),
    ensures
        events.last().registry.slots.contains_key(hwnd),
        events.last().registry.slots[hwnd] == state,
        events.last().registry.states[state as int].attached,
{
    assert(events[events.len() - 1].registry.slots.contains_key(hwnd));
}

/// Whatever other operations do in between, a registration for a window that is
/// not attached succeeds when every call that it makes does, provided that the
/// window is attached and nothing is pending when the last call returns: the
/// subclass is installed, the window and the monitor are found, the Shell accepts
/// the AppBar, and the window is moved.
pub proof fn law_registration_succeeds_when_its_calls_do(
    registry: Registry,
    hwnd: isize,
    registration: Registration,
    window: isize,
    events: Seq<Event>,
)
    requires
        registry.wf(),
        registry.states.len() < usize::MAX,
        !registry.occupied(hwnd),
        valid_size(registration.size),
        events.len() == 8,
        forall|i: int|
            0 <= i < 8 ==> (#[trigger] events[i]).registry.wf() && registry.states.len()
                < events[i].registry.states.len(),
        ({
            let value = events[7].registry.states[registry.states.len() as int];
            value.attached && value == value.nothing_pending()
        }),
        events[0].reply == SubclassReply::Install(Ok(())),
        events[1].reply == SubclassReply::WindowHandle(Ok(window)),
        events[2].reply matches SubclassReply::AppBar(Reply::MonitorRect(Ok(_))),
        events[3].reply matches SubclassReply::AppBar(Reply::AppBarMessage { result, .. })
            && result != 0,
        events[4].reply matches SubclassReply::AppBar(Reply::MonitorRect(Ok(monitor)))
            && strip_fits(monitor, registration.edge, registration.size as int),
        events[5].reply matches SubclassReply::AppBar(Reply::AppBarMessage { data, .. })
            && strip_fits(data.rect, registration.edge, registration.size as int),
        events[6].reply matches SubclassReply::AppBar(Reply::AppBarMessage { .. }),
        events[7].reply == SubclassReply::AppBar(Reply::SetWindowPos(Ok(()))),
    ensures
        ({
            let step = registry.registering(hwnd, registration).1;
            &&& follows(step, events)
            &&& registration_left(
                step,
                events,
                hwnd,
                registry.states.len() as usize,
                registered_app_bar(registration, window),
            )
        }),
{
    let state = registry.states.len() as usize;
    let e1 = events.drop_first();
    let e2 = e1.drop_first();
    let e3 = e2.drop_first();
    let e4 = e3.drop_first();
    let e5 = e4.drop_first();
    let e6 = e5.drop_first();
    let e7 = e6.drop_first();
    let e8 = e7.drop_first();
    assert(e1[0] == events[1] && e2[0] == events[2] && e3[0] == events[3]);
    assert(e4[0] == events[4] && e5[0] == events[5] && e6[0] == events[6]);
    assert(e7[0] == events[7] && e8.len() == 0);
    let s0 = registry.registering(hwnd, registration).1;
    let s1 = events[0].registry.after(s0->then, events[0].reply).1;
    let s2 = events[1].registry.after(s1->then, events[1].reply).1;
    let s3 = events[2].registry.after(s2->then, events[2].reply).1;
    let s4 = events[3].registry.after(s3->then, events[3].reply).1;
    let s5 = events[4].registry.after(s4->then, events[4].reply).1;
    let s6 = events[5].registry.after(s5->then, events[5].reply).1;
    let s7 = events[6].registry.after(s6->then, events[6].reply).1;
    let (left, s8) = events[7].registry.after(s7->then, events[7].reply);
    lemma_drained_registration(
        events[7].registry,
        hwnd,
        state,
        registered_app_bar(registration, window),
    );
    assert(s8 is Registered);
    assert(follows(s8, e8) && trace(s8, e8).step == s8);
    assert(follows(s7, e7) && trace(s7, e7).step == s8 && left_by(s7, e7) == left);
    assert(follows(s6, e6) && trace(s6, e6).step == s8 && left_by(s6, e6) == left);
    assert(follows(s5, e5) && trace(s5, e5).step == s8 && left_by(s5, e5) == left);
    assert(follows(s4, e4) && trace(s4, e4).step == s8 && left_by(s4, e4) == left);
    assert(follows(s3, e3) && trace(s3, e3).step == s8 && left_by(s3, e3) == left);
    assert(follows(s2, e2) && trace(s2, e2).step == s8 && left_by(s2, e2) == left);
    assert(follows(s1, e1) && trace(s1, e1).step == s8 && left_by(s1, e1) == left);
}

/// Whether a step is one that its registry takes, with no more than `bound` calls
/// to come.
spec fn within_calls(next: (Registry, SubclassStep), bound: nat) -> bool {
    &&& calls_left(next.0, next.1) <= bound
    &&& next.0.wf()
    &&& next.1.wf(next.0.states.len())
}

proof fn lemma_drained_within_calls(
    registry: Registry,
    state: usize,
    app_bar: AppBar,
    goal: FinishGoal,
)
    requires
        registry.wf(),
        state < registry.states.len(),
        app_bar.wf(),
    ensures
        within_calls(
            registry.drained(state, app_bar, goal),
            calls_for_pending(registry.states[state as int]) + 1 + calls_to_finish(goal),
        ),
{
}

proof fn lemma_detach_ended_within_calls(
    registry: Registry,
    hwnd: isize,
    goal: DetachGoal,
    result: Result<(), AppBarError>,
)
    requires
        registry.wf(),
        goal.wf(registry.states.len()),
    ensures
        within_calls(
            registry.detach_ended(hwnd, goal, result),
            calls_after_detaching(goal),
        ),
{
}

proof fn lemma_detaching_within_calls(registry: Registry, hwnd: isize, goal: DetachGoal)
    requires
        registry.wf(),
        goal.wf(registry.states.len()),
    ensures
        within_calls(registry.detaching(hwnd, goal), 3 + calls_after_detaching(goal)),
{
    lemma_detach_ended_within_calls(registry, hwnd, goal, Ok(()));
}

proof fn lemma_run_advanced_within_calls(
    registry: Registry,
    state: usize,
    app_bar: AppBar,
    step: AppBarStep,
    goal: RunGoal,
)
    requires
        registry.wf(),
        state < registry.states.len(),
        app_bar.wf(),
        step.wf(),
    ensures
        within_calls(
            registry.run_advanced(state, app_bar, step, goal),
            step.calls_left() + calls_for_pending(registry.states[state as int])
                + calls_after_running(goal),
        ),
{
    if step !is Call {
        match goal {
            RunGoal::Register { hwnd } => match step.outcome() {
                Ok(()) => lemma_drained_within_calls(
                    registry,
                    state,
                    app_bar,
                    FinishGoal::Registered { hwnd },
                ),
                Err(error) => lemma_detaching_within_calls(
                    registry,
                    hwnd,
                    DetachGoal::Rollback { state, error },
                ),
            },
            RunGoal::Operation => lemma_drained_within_calls(
                registry,
                state,
                app_bar,
                FinishGoal::Operation { result: step.outcome() },
            ),
            RunGoal::Message { hwnd, message } => lemma_drained_within_calls(
                registry,
                state,
                app_bar,
                FinishGoal::Message { hwnd, message, consumed: step.consumed() },
            ),
        }
    }
}

proof fn lemma_drain_advanced_within_calls(
    registry: Registry,
    state: usize,
    app_bar: AppBar,
    step: AppBarStep,
    notify: bool,
    goal: FinishGoal,
)
    requires
        registry.wf(),
        state < registry.states.len(),
        app_bar.wf(),
        step.wf(),
    ensures
        within_calls(
            registry.drain_advanced(state, app_bar, step, notify, goal),
            step.calls_left() + calls_for_news(notify) + calls_for_pending(
                registry.states[state as int],
            ) + 1 + calls_to_finish(goal),
        ),
{
    if step !is Call {
        lemma_drained_within_calls(registry, state, app_bar, goal);
    }
}

proof fn lemma_released_within_calls(
    registry: Registry,
    hwnd: isize,
    app_bar: AppBar,
    step: AppBarStep,
    goal: DetachGoal,
)
    requires
        registry.wf(),
        app_bar.wf(),
        step.wf(),
        goal.wf(registry.states.len()),
    ensures
        within_calls(
            registry.released(hwnd, app_bar, step, goal),
            step.calls_left() + calls_after_detaching(goal),
        ),
{
    if step !is Call {
        lemma_detach_ended_within_calls(registry, hwnd, goal, step.outcome());
    }
}

proof fn lemma_subclass_removed_within_calls(
    registry: Registry,
    hwnd: isize,
    state: usize,
    goal: DetachGoal,
    result: Result<(), windows_result::Error>,
)
    requires
        registry.wf(),
        state < registry.states.len(),
        goal.wf(registry.states.len()),
    ensures
        within_calls(
            registry.subclass_removed(hwnd, state, goal, result),
            2 + calls_after_detaching(goal),
        ),
{
    match result {
        Err(error) => lemma_detach_ended_within_calls(
            registry,
            hwnd,
            goal,
            Err(AppBarError::Windows(error)),
        ),
        Ok(()) => {
            let value = registry.states[state as int];
            let next = registry.releasing(hwnd, state).with_state(state, value.detached());
            assert(next.wf());
            match value.app_bar {
                Some(app_bar) => lemma_released_within_calls(
                    next,
                    hwnd,
                    app_bar,
                    app_bar.giving_up(),
                    goal,
                ),
                None => lemma_detach_ended_within_calls(next, hwnd, goal, Ok(())),
            }
        },
    }
}

/// Every reply brings an operation nearer to its end.
proof fn lemma_calls_left_decreases(registry: Registry, step: SubclassStep, reply: SubclassReply)
    requires
        registry.wf(),
        step is Call,
        step.wf(registry.states.len()),
        step->then.awaits(reply),
    ensures
        within_calls(
            registry.after(step->then, reply),
            (calls_left(registry, step) - 1) as nat,
        ),
        calls_left(registry, step) > 0,
{
    match (step->then, reply) {
        (
            SubclassOperation::Install { hwnd, state, registration },
            SubclassReply::Install(result),
        ) => {
            lemma_detaching_within_calls(
                registry,
                hwnd,
                DetachGoal::Rollback { state, error: AppBarError::InvalidSize },
            );
        },
        (
            SubclassOperation::Handle { hwnd, state, registration },
            SubclassReply::WindowHandle(found),
        ) => match found {
            Err(error) => lemma_detaching_within_calls(
                registry,
                hwnd,
                DetachGoal::Rollback { state, error },
            ),
            Ok(window) => {
                let app_bar = AppBar::unregistered(
                    window,
                    registration.monitor_index,
                    registration.edge,
                    registration.size,
                    registration.callback_message,
                );
                lemma_run_advanced_within_calls(
                    registry,
                    state,
                    app_bar,
                    app_bar.registering(),
                    RunGoal::Register { hwnd },
                );
            },
        },
        (
            SubclassOperation::Run { state, app_bar, operation, goal },
            SubclassReply::AppBar(reply),
        ) => {
            let (next_bar, next_step) = app_bar.after(operation, reply);
            lemma_after_is_wf(app_bar, operation, reply);
            lemma_run_advanced_within_calls(registry, state, next_bar, next_step, goal);
        },
        (
            SubclassOperation::Drain { state, app_bar, operation, notify, goal },
            SubclassReply::AppBar(reply),
        ) => {
            let (next_bar, next_step) = app_bar.after(operation, reply);
            lemma_after_is_wf(app_bar, operation, reply);
            lemma_drain_advanced_within_calls(registry, state, next_bar, next_step, notify, goal);
        },
        (
            SubclassOperation::Dispose { app_bar, operation, .. },
            SubclassReply::AppBar(reply),
        ) => {
            lemma_after_is_wf(app_bar, operation, reply);
        },
        (SubclassOperation::Remove { hwnd, state, goal }, SubclassReply::Remove(result)) => {
            lemma_subclass_removed_within_calls(registry, hwnd, state, goal, result);
        },
        (
            SubclassOperation::Release { hwnd, app_bar, operation, goal },
            SubclassReply::AppBar(reply),
        ) => {
            let (next_bar, next_step) = app_bar.after(operation, reply);
            lemma_after_is_wf(app_bar, operation, reply);
            lemma_released_within_calls(registry, hwnd, next_bar, next_step, goal);
        },
        _ => {},
    }
}

/// An operation that no other operation disturbs comes to an end: it asks for
/// no more calls than its first step announces.
pub proof fn law_undisturbed_operations_are_bounded(
    registry: Registry,
    step: SubclassStep,
    replies: Seq<SubclassReply>,
)
    requires
        registry.wf(),
        step.wf(registry.states.len()),
        quiet_follows(registry, step, replies),
    ensures
        quiet_run(registry, step, replies).requests.len() <= calls_left(registry, step),
    decreases replies.len(),
{
    if replies.len() > 0 {
        lemma_calls_left_decreases(registry, step, replies[0]);
        let (next_registry, next_step) = registry.after(step->then, replies[0]);
        law_undisturbed_operations_are_bounded(next_registry, next_step, replies.drop_first());
    }
}

/// At the end of an operation a pending repositioning is carried out first, and
/// the pending news of a moved window are sent to the Shell after it, whether or
/// not the window could be moved. If the window is attached and nothing new is
/// pending when the last of these calls returns, the AppBar is at hand again and
/// the operation ends as it would have without them. Nothing is asked of what
/// other operations do before that.
pub proof fn law_pending_notifications_are_drained_in_order(
    registry: Registry,
    state: usize,
    bar: AppBar,
    goal: FinishGoal,
    monitor: Rect,
    queried: Reply,
    placed: Reply,
    moved: Result<(), AppBarError>,
    noticed: Reply,
    registries: Seq<Registry>,
)
    requires
        registry.wf(),
        state < registry.states.len(),
        ({
            let value = registry.states[state as int];
            &&& value.pending_reposition
            &&& value.pending_window_position_changed
            &&& value.owns(bar)
            &&& value.callback_message != WM_WINDOWPOSCHANGED
        }),
        bar.wf(),
        bar.registered,
        goal !is Message,
        queried is AppBarMessage,
        placed is AppBarMessage,
        noticed is AppBarMessage,
        strip_fits(monitor, bar.edge, bar.size as int),
        strip_fits(queried->AppBarMessage_data.rect, bar.edge, bar.size as int),
        registries.len() == 5,
        forall|i: int|
            0 <= i < 5 ==> (#[trigger] registries[i]).wf() && state < registries[i].states.len(),
        ({
            let value = registries[4].states[state as int];
            value.attached && value == value.nothing_pending()
        }),
    ensures
        ({
            let size = bar.size as int;
            let data = bar.message_data(bar.edge);
            let replies = seq![
                SubclassReply::AppBar(Reply::MonitorRect(Ok(monitor))),
                SubclassReply::AppBar(queried),
                SubclassReply::AppBar(placed),
                SubclassReply::AppBar(Reply::SetWindowPos(moved)),
                SubclassReply::AppBar(noticed),
            ];
            let events = events_of(registries, replies);
            let (begun, step) = registry.drained(state, bar, goal);
            let end = trace(step, events);
            &&& begun == registry.with_state(
                state,
                registry.states[state as int].nothing_pending(),
            )
            &&& follows(step, events)
            &&& end.step == SubclassStep::finishing(state, goal)
            &&& left_by(step, events) == registries[4].with_state(
                state,
                registries[4].states[state as int].returned(bar),
            )
            &&& end.requests == seq![
                SubclassRequest::AppBar(Request::MonitorRect { index: bar.monitor_index }),
                SubclassRequest::AppBar(
                    Request::AppBarMessage {
                        message: ABM_QUERYPOS,
                        data: AppBarData { rect: strip(monitor, bar.edge, size), ..data },
                    },
                ),
                SubclassRequest::AppBar(
                    Request::AppBarMessage {
                        message: ABM_SETPOS,
                        data: AppBarData {
                            rect: strip(queried->AppBarMessage_data.rect, bar.edge, size),
                            ..queried->AppBarMessage_data
                        },
                    },
                ),
                SubclassRequest::AppBar(
                    Request::SetWindowPos {
                        hwnd: bar.hwnd,
                        rect: placed->AppBarMessage_data.rect,
                    },
                ),
                SubclassRequest::AppBar(
                    Request::AppBarMessage { message: ABM_WINDOWPOSCHANGED, data },
                ),
            ]
        }),
{
    let replies = seq![
        SubclassReply::AppBar(Reply::MonitorRect(Ok(monitor))),
        SubclassReply::AppBar(queried),
        SubclassReply::AppBar(placed),
        SubclassReply::AppBar(Reply::SetWindowPos(moved)),
        SubclassReply::AppBar(noticed),
    ];
    let events = events_of(registries, replies);
    let after_monitor = events.drop_first();
    let after_query = after_monitor.drop_first();
    let after_place = after_query.drop_first();
    let after_move = after_place.drop_first();
    let after_notice = after_move.drop_first();
    assert(after_monitor[0] == events[1]);
    assert(after_query[0] == events[2]);
    assert(after_place[0] == events[3]);
    assert(after_move[0] == events[4]);
    let s0 = registry.drained(state, bar, goal).1;
    let s1 = registries[0].after(s0->then, replies[0]).1;
    let s2 = registries[1].after(s1->then, replies[1]).1;
    let s3 = registries[2].after(s2->then, replies[2]).1;
    let s4 = registries[3].after(s3->then, replies[3]).1;
    let (left, s5) = registries[4].after(s4->then, replies[4]);
    let value = registries[4].states[state as int];
    assert(left.states =~= registries[4].states.update(state as int, value.returned(bar)));
    assert(follows(s5, after_notice));
    assert(trace(s5, after_notice).requests =~= Seq::empty());
    assert(follows(s4, after_move) && left_by(s4, after_move) == left);
    assert(trace(s4, after_move).requests =~= seq![s4->request]);
    assert(follows(s3, after_place) && left_by(s3, after_place) == left);
    assert(trace(s3, after_place).requests =~= seq![s3->request, s4->request]);
    assert(follows(s2, after_query) && left_by(s2, after_query) == left);
    assert(trace(s2, after_query).requests =~= seq![s2->request, s3->request, s4->request]);
    assert(follows(s1, after_monitor) && left_by(s1, after_monitor) == left);
    assert(trace(s1, after_monitor).requests =~= seq![
        s1->request,
        s2->request,
        s3->request,
        s4->request,
    ]);
    assert(trace(s0, events).requests =~= seq![
        s0->request,
        s1->request,
        s2->request,
        s3->request,
        s4->request,
    ]);
}

/// Unregistering a window removes its subclass and then asks the Shell once to
/// remove its AppBar. It releases the window's slot and detaches its state, and
/// changes nothing else of what the registry holds at the time. If the window has
/// not been registered anew when the Shell has accepted, that is all, and there is
/// nothing left to do when the [`SubclassedAppBar`] is dropped. Nothing else is
/// asked of what other operations do in between.
pub proof fn law_unregister_cleans_up_once(
    registry: Registry,
    app_bar: SubclassedAppBar,
    bar: AppBar,
    first: Registry,
    second: Registry,
    removed: Reply,
)
    requires
        registry.wf(),
        registry.occupied(app_bar.hwnd),
        first.wf(),
        first.slots.contains_key(app_bar.hwnd),
        first.slots[app_bar.hwnd] == registry.slots[app_bar.hwnd],
        first.states[registry.slots[app_bar.hwnd] as int].app_bar == Some(bar),
        second.wf(),
        !second.occupied(app_bar.hwnd),
        removed matches Reply::AppBarMessage { result, .. } && result != 0,
    ensures
        ({
            let state = registry.slots[app_bar.hwnd];
            let (begun, step) = registry.detaching(app_bar.hwnd, DetachGoal::Unregister);
            let replies = seq![SubclassReply::Remove(Ok(())), SubclassReply::AppBar(removed)];
            let events = events_of(seq![first, second], replies);
            let end = trace(step, events);
            &&& begun == registry
            &&& follows(step, events)
            &&& end.step == SubclassStep::Finished(Ok(()))
            &&& end.requests == seq![
                SubclassRequest::Remove { hwnd: app_bar.hwnd },
                SubclassRequest::AppBar(
                    Request::AppBarMessage {
                        message: ABM_REMOVE,
                        data: bar.message_data(bar.edge),
                    },
                ),
            ]
            &&& first.after(step->then, replies[0]).0 == first.releasing(
                app_bar.hwnd,
                state,
            ).with_state(state, first.states[state as int].detached())
            &&& !first.after(step->then, replies[0]).0.occupied(app_bar.hwnd)
            &&& left_by(step, events) == second
            &&& second.dropping(app_bar.hwnd, Ok(())) == SubclassStep::Finished(Ok(()))
        }),
{
    let replies = seq![SubclassReply::Remove(Ok(())), SubclassReply::AppBar(removed)];
    let events = events_of(seq![first, second], replies);
    let after_remove = events.drop_first();
    assert(after_remove[0] == events[1]);
    let s0 = registry.detaching(app_bar.hwnd, DetachGoal::Unregister).1;
    let s1 = first.after(s0->then, replies[0]).1;
    let s2 = second.after(s1->then, replies[1]).1;
    assert(first.states[registry.slots[app_bar.hwnd] as int].wf());
    assert(follows(s2, after_remove.drop_first()));
    assert(trace(s2, after_remove.drop_first()).requests =~= Seq::empty());
    assert(follows(s1, after_remove) && left_by(s1, after_remove) == second);
    assert(trace(s1, after_remove).requests =~= seq![s1->request]);
    assert(trace(s0, events).requests =~= seq![s0->request, s1->request]);
}

/// The operation that an AppBar runs for its window is the AppBar's own: with
/// the replies to its calls it comes as far as [`crate::app_bar_laws::run`] says,
/// whatever other operations do in between, and goes on from there.
pub proof fn law_operations_are_those_of_the_app_bar(
    state: usize,
    bar: AppBar,
    step: AppBarStep,
    goal: RunGoal,
    replies: Seq<Reply>,
    events: Seq<Event>,
)
    requires
        step is Call,
        replies.len() > 0,
        events.len() == replies.len(),
        forall|i: int|
            0 <= i < events.len() ==> (#[trigger] events[i]).reply == SubclassReply::AppBar(
                replies[i],
            ),
        crate::app_bar_laws::follows(bar, step, replies),
        follows(running(state, bar, step, goal), events),
    ensures
        ({
            let end = crate::app_bar_laws::run(bar, step, replies);
            trace(running(state, bar, step, goal), events).step
                == events.last().registry.run_advanced(state, end.bar, end.step, goal).1
        }),
    decreases replies.len(),
{
    let (next_bar, next_step) = bar.after(step->then, replies[0]);
    if replies.len() > 1 {
        reveal_with_fuel(crate::app_bar_laws::follows, 2);
        let rest_replies = replies.drop_first();
        let rest_events = events.drop_first();
        assert forall|i: int| 0 <= i < rest_events.len() implies (
        #[trigger] rest_events[i]).reply == SubclassReply::AppBar(rest_replies[i]) by {
            assert(rest_events[i] == events[i + 1]);
        }
        assert(events[0].reply == SubclassReply::AppBar(replies[0]));
        law_operations_are_those_of_the_app_bar(
            state,
            next_bar,
            next_step,
            goal,
            rest_replies,
            rest_events,
        );
        assert(rest_events.last() == events.last());
    } else {
        reveal_with_fuel(trace, 2);
        reveal_with_fuel(crate::app_bar_laws::run, 2);
        assert(events[0].reply == SubclassReply::AppBar(replies[0]));
    }
}

/// The step at which `bar`, which an operation has taken from `state`, is at
/// `step` of an operation of its own.
pub open spec fn running(
    state: usize,
    bar: AppBar,
    step: AppBarStep,
    goal: RunGoal,
) -> SubclassStep {
    SubclassStep::Call {
        request: SubclassRequest::AppBar(step->request),
        then: SubclassOperation::Run { state, app_bar: bar, operation: step->then, goal },
    }
}

} // verus!
