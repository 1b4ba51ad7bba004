//! Which calls the operations of subclassed AppBars make, and how they end.
//!
//! The laws speak of every run of an operation, finished or not, whatever other
//! operations do in between, and give the calls made and the outcome in terms of
//! what the operation was asked for and of the replies.

use vstd::prelude::*;

use crate::app_bar::{AppBar, AppBarOperation, AppBarStep, PositionGoal};
use crate::app_bar_calls::{
    accepted, law_changing_the_edge_places_the_app_bar,
    law_changing_the_monitor_places_the_app_bar, law_hiding_removes_the_app_bar,
    law_messages_are_acted_on, law_registering_places_the_app_bar, law_resizing_places_the_app_bar,
    law_showing_places_the_app_bar, placing_calls, placing_length, plain_call,
};
use crate::app_bar_laws::{
    follows as bar_follows, law_messages_leave_the_app_bar_as_it_is, run, same_configuration, Run,
};
use crate::error::AppBarError;
use crate::lifecycle::{
    AppBarCall, DetachGoal, FinishGoal, Registration, RunGoal, SubclassOperation, SubclassReply,
    SubclassRequest, SubclassStep,
};
use crate::lifecycle_laws::{
    follows, law_other_messages_are_passed_on, left_by, passed_on, running, trace, Event,
};
use crate::platform::{Reply, Request};
use crate::subclass::{Registry, SubclassState, SubclassedAppBar, WindowMessage};
use crate::win32::{ABM_REMOVE, ABM_WINDOWPOSCHANGED, WM_DESTROY, WM_WINDOWPOSCHANGED};

verus! {

/// The calls of an AppBar, as those of its window.
pub open spec fn wrap(requests: Seq<Request>) -> Seq<SubclassRequest> {
    Seq::new(requests.len(), |i: int| SubclassRequest::AppBar(requests[i]))
}

/// The replies among `events` that an AppBar gets which is at `step` of an operation,
/// until that operation ends.
pub open spec fn bar_replies(bar: AppBar, step: AppBarStep, events: Seq<Event>) -> Seq<Reply>
    decreases events.len(),
{
    if events.len() == 0 || step !is Call {
        Seq::empty()
    } else {
        let reply = events[0].reply->AppBar_0;
        let (next_bar, next_step) = bar.after(step->then, reply);
        seq![reply] + bar_replies(next_bar, next_step, events.drop_first())
    }
}

/// How far an AppBar comes with `events` which is at `step` of an operation.
pub open spec fn bar_end(bar: AppBar, step: AppBarStep, events: Seq<Event>) -> Run {
    run(bar, step, bar_replies(bar, step, events))
}

/// Whether in the registry of each event `state` is attached.
pub open spec fn attached_in(events: Seq<Event>, state: usize) -> bool {
    forall|i: int|
        0 <= i < events.len() ==> (#[trigger] events[i]).registry.states[state as int].attached
}

/// The registry after `events` of an operation that began with `begun` and `step`.
pub open spec fn left_after(begun: Registry, step: SubclassStep, events: Seq<Event>) -> Registry {
    if events.len() == 0 {
        begun
    } else {
        left_by(step, events)
    }
}

/// Whether `step` is how an operation with `goal` ends that has given its AppBar back
/// to `state`.
pub open spec fn ends_as(step: SubclassStep, state: usize, goal: FinishGoal) -> bool {
    match goal {
        FinishGoal::Registered { hwnd } => step == SubclassStep::Registered(
            Ok(SubclassedAppBar { hwnd, state }),
        ),
        FinishGoal::Operation { result } => step == SubclassStep::Finished(result),
        FinishGoal::Message { hwnd, message, consumed } => if consumed {
            step == SubclassStep::Replied(0)
        } else {
            &&& step is Call
            &&& step->request == (SubclassRequest::CallNext { hwnd, message })
        },
    }
}

/// The state with `app_bar` at hand, no operation in progress and nothing pending.
pub open spec fn idle(value: SubclassState, app_bar: Option<AppBar>) -> SubclassState {
    SubclassState {
        app_bar,
        callback_message: value.callback_message,
        attached: value.attached,
        operation_in_progress: false,
        pending_reposition: false,
        pending_window_position_changed: false,
    }
}

/// The step at which `bar` handles something that was pending.
pub open spec fn draining(
    state: usize,
    bar: AppBar,
    step: AppBarStep,
    notify: bool,
    goal: FinishGoal,
) -> SubclassStep {
    SubclassStep::Call {
        request: SubclassRequest::AppBar(step->request),
        then: SubclassOperation::Drain { state, app_bar: bar, operation: step->then, notify, goal },
    }
}

proof fn lemma_bar_replies_len(bar: AppBar, step: AppBarStep, events: Seq<Event>)
    ensures
        bar_replies(bar, step, events).len() <= events.len(),
    decreases events.len(),
{
    if events.len() > 0 && step is Call {
        let (next_bar, next_step) = bar.after(step->then, events[0].reply->AppBar_0);
        lemma_bar_replies_len(next_bar, next_step, events.drop_first());
    }
}

/// The AppBar that an operation has runs its own operation: the calls that the window
/// makes are those of the AppBar, one for one, until the AppBar's operation has ended.
/// What comes then is what the last reply finds.
pub proof fn law_calls_are_those_of_the_app_bar(
    state: usize,
    bar: AppBar,
    step: AppBarStep,
    goal: RunGoal,
    events: Seq<Event>,
)
    requires
        step is Call,
        follows(running(state, bar, step, goal), events),
    ensures
        bar_replies(bar, step, events).len() <= events.len(),
        bar_follows(bar, step, bar_replies(bar, step, events)),
        bar_end(bar, step, events).step is Call ==> {
            let whole = trace(running(state, bar, step, goal), events);
            &&& bar_replies(bar, step, events).len() == events.len()
            &&& whole.requests == wrap(bar_end(bar, step, events).requests)
            &&& whole.step is Call
        },
        bar_end(bar, step, events).step !is Call ==> {
            let count = bar_replies(bar, step, events).len() as int;
            let found = events[count - 1].registry;
            &&& count > 0
            &&& found.wf()
            &&& state < found.states.len()
        },
        bar_end(bar, step, events).step !is Call ==> {
            let count = bar_replies(bar, step, events).len() as int;
            let end = bar_end(bar, step, events);
            let found = events[count - 1].registry;
            let (left, next) = found.run_advanced(state, end.bar, end.step, goal);
            let whole = trace(running(state, bar, step, goal), events);
            let rest = events.skip(count);
            &&& follows(next, rest)
            &&& whole.requests == wrap(end.requests) + trace(next, rest).requests
            &&& whole.step == trace(next, rest).step
            &&& left_by(running(state, bar, step, goal), events) == left_after(left, next, rest)
        },
    decreases events.len(),
{
    let begun = running(state, bar, step, goal);
    let replies = bar_replies(bar, step, events);
    lemma_bar_replies_len(bar, step, events);
    if events.len() == 0 {
        assert(trace(begun, events).requests =~= wrap(run(bar, step, replies).requests));
    } else {
        let reply = events[0].reply->AppBar_0;
        let (next_bar, next_step) = bar.after(step->then, reply);
        let rest = events.drop_first();
        let rest_replies = bar_replies(next_bar, next_step, rest);
        assert(replies.drop_first() =~= rest_replies);
        assert(replies[0] == reply);
        let registry = events[0].registry;
        let end = run(bar, step, replies);
        let rest_end = run(next_bar, next_step, rest_replies);
        assert(end.requests =~= seq![step->request] + rest_end.requests);
        if next_step is Call {
            assert(registry.after(begun->then, events[0].reply) == (
                registry,
                running(state, next_bar, next_step, goal),
            ));
            law_calls_are_those_of_the_app_bar(state, next_bar, next_step, goal, rest);
            let after = running(state, next_bar, next_step, goal);
            assert(trace(begun, events).requests =~= seq![begun->request] + trace(
                after,
                rest,
            ).requests);
            if rest_end.step is Call {
                assert(trace(begun, events).requests =~= wrap(end.requests));
            } else {
                let count = replies.len() as int;
                assert(events[count - 1] == rest[count - 2]);
                assert(events.skip(count) =~= rest.skip(count - 1));
                let found = events[count - 1].registry;
                let (left, next) = found.run_advanced(state, end.bar, end.step, goal);
                assert(trace(begun, events).requests =~= wrap(end.requests) + trace(
                    next,
                    events.skip(count),
                ).requests);
                assert(left_by(begun, events) == left_by(after, rest));
                assert(left_by(begun, events) == left_after(left, next, events.skip(count)));
            }
        } else {
            assert(rest_replies =~= Seq::<Reply>::empty());
            assert(bar_follows(next_bar, next_step, rest_replies));
            assert(events.skip(1) =~= rest);
            let (left, next) = registry.after(begun->then, events[0].reply);
            assert(trace(begun, events).requests =~= wrap(end.requests) + trace(
                next,
                rest,
            ).requests);
            assert(left_by(begun, events) == left_after(left, next, rest));
        }
    }
}

/// An AppBar that handles something pending runs that handling: the calls that the
/// window makes are those of the AppBar, one for one, until the handling has ended.
pub proof fn law_draining_calls_are_those_of_the_app_bar(
    state: usize,
    bar: AppBar,
    step: AppBarStep,
    notify: bool,
    goal: FinishGoal,
    events: Seq<Event>,
)
    requires
        step is Call,
        follows(draining(state, bar, step, notify, goal), events),
    ensures
        bar_replies(bar, step, events).len() <= events.len(),
        bar_follows(bar, step, bar_replies(bar, step, events)),
        bar_end(bar, step, events).step is Call ==> {
            let whole = trace(draining(state, bar, step, notify, goal), events);
            &&& bar_replies(bar, step, events).len() == events.len()
            &&& whole.requests == wrap(bar_end(bar, step, events).requests)
            &&& whole.step is Call
        },
        bar_end(bar, step, events).step !is Call ==> {
            let count = bar_replies(bar, step, events).len() as int;
            let found = events[count - 1].registry;
            &&& count > 0
            &&& found.wf()
            &&& state < found.states.len()
        },
        bar_end(bar, step, events).step !is Call ==> {
            let count = bar_replies(bar, step, events).len() as int;
            let end = bar_end(bar, step, events);
            let found = events[count - 1].registry;
            let (left, next) = found.drain_advanced(state, end.bar, end.step, notify, goal);
            let whole = trace(draining(state, bar, step, notify, goal), events);
            let rest = events.skip(count);
            &&& follows(next, rest)
            &&& whole.requests == wrap(end.requests) + trace(next, rest).requests
            &&& whole.step == trace(next, rest).step
            &&& left_by(draining(state, bar, step, notify, goal), events) == left_after(
                left,
                next,
                rest,
            )
        },
    decreases events.len(),
{
    let begun = draining(state, bar, step, notify, goal);
    let replies = bar_replies(bar, step, events);
    lemma_bar_replies_len(bar, step, events);
    if events.len() == 0 {
        assert(trace(begun, events).requests =~= wrap(run(bar, step, replies).requests));
    } else {
        let reply = events[0].reply->AppBar_0;
        let (next_bar, next_step) = bar.after(step->then, reply);
        let rest = events.drop_first();
        let rest_replies = bar_replies(next_bar, next_step, rest);
        assert(replies.drop_first() =~= rest_replies);
        assert(replies[0] == reply);
        let registry = events[0].registry;
        let end = run(bar, step, replies);
        let rest_end = run(next_bar, next_step, rest_replies);
        assert(end.requests =~= seq![step->request] + rest_end.requests);
        if next_step is Call {
            assert(registry.after(begun->then, events[0].reply) == (
                registry,
                draining(state, next_bar, next_step, notify, goal),
            ));
            law_draining_calls_are_those_of_the_app_bar(
                state,
                next_bar,
                next_step,
                notify,
                goal,
                rest,
            );
            let after = draining(state, next_bar, next_step, notify, goal);
            assert(trace(begun, events).requests =~= seq![begun->request] + trace(
                after,
                rest,
            ).requests);
            if rest_end.step is Call {
                assert(trace(begun, events).requests =~= wrap(end.requests));
            } else {
                let count = replies.len() as int;
                assert(events[count - 1] == rest[count - 2]);
                assert(events.skip(count) =~= rest.skip(count - 1));
                let found = events[count - 1].registry;
                let (left, next) = found.drain_advanced(state, end.bar, end.step, notify, goal);
                assert(trace(begun, events).requests =~= wrap(end.requests) + trace(
                    next,
                    events.skip(count),
                ).requests);
                assert(left_by(begun, events) == left_by(after, rest));
                assert(left_by(begun, events) == left_after(left, next, events.skip(count)));
            }
        } else {
            assert(rest_replies =~= Seq::<Reply>::empty());
            assert(bar_follows(next_bar, next_step, rest_replies));
            assert(events.skip(1) =~= rest);
            let (left, next) = registry.after(begun->then, events[0].reply);
            assert(trace(begun, events).requests =~= wrap(end.requests) + trace(
                next,
                rest,
            ).requests);
            assert(left_by(begun, events) == left_after(left, next, rest));
        }
    }
}

/// Whether a run that handles what is pending comes by `step` with `bar`.
spec fn in_draining(step: SubclassStep, state: usize, bar: AppBar, goal: FinishGoal) -> bool {
    step matches SubclassStep::Call { request, then } && request is AppBar && (
    then matches SubclassOperation::Drain {
        state: own,
        app_bar,
        operation,
        goal: after,
        ..
    } && {
        &&& own == state
        &&& app_bar == bar
        &&& after == goal
        &&& operation is Notify || (operation matches AppBarOperation::Position {
            goal: PositionGoal::Message,
            ..
        })
    })
}

proof fn lemma_drained(registry: Registry, state: usize, bar: AppBar, goal: FinishGoal)
    requires
        state < registry.states.len(),
        registry.states[state as int].attached,
    ensures
        ({
            let (next, step) = registry.drained(state, bar, goal);
            in_draining(step, state, bar, goal) || {
                &&& ends_as(step, state, goal)
                &&& next == registry.with_state(
                    state,
                    idle(registry.states[state as int], Some(bar)),
                )
            }
        }),
{
    let (next, step) = registry.drained(state, bar, goal);
    if !in_draining(step, state, bar, goal) {
        assert(next.states =~= registry.states.update(
            state as int,
            idle(registry.states[state as int], Some(bar)),
        ));
    }
}

proof fn lemma_attached_in(events: Seq<Event>, state: usize)
    requires
        events.len() > 0,
        attached_in(events, state),
    ensures
        attached_in(events.drop_first(), state),
        events[0].registry.states[state as int].attached,
        events.len() > 1 ==> events.drop_first().last() == events.last(),
{
    assert forall|i: int| 0 <= i < events.drop_first().len() implies (
    #[trigger] events.drop_first()[i]).registry.states[state as int].attached by {
        assert(events.drop_first()[i] == events[i + 1]);
    }
}

proof fn lemma_in_draining(
    step: SubclassStep,
    events: Seq<Event>,
    state: usize,
    bar: AppBar,
    goal: FinishGoal,
)
    requires
        in_draining(step, state, bar, goal),
        follows(step, events),
        attached_in(events, state),
        goal !is Message,
    ensures
        trace(step, events).step is Call || {
            let found = events.last().registry;
            &&& events.len() > 0
            &&& state < found.states.len()
            &&& ends_as(trace(step, events).step, state, goal)
            &&& left_by(step, events) == found.with_state(
                state,
                idle(found.states[state as int], Some(bar)),
            )
        },
    decreases events.len(),
{
    if events.len() > 0 {
        let registry = events[0].registry;
        let after = bar.after(step->then->Drain_operation, events[0].reply->AppBar_0).0;
        let next = registry.after(step->then, events[0].reply).1;
        lemma_attached_in(events, state);
        assert(after == bar);
        lemma_drained(registry, state, bar, goal);
        if next is Call {
            assert(in_draining(next, state, bar, goal));
            lemma_in_draining(next, events.drop_first(), state, bar, goal);
        } else {
            reveal_with_fuel(follows, 2);
            reveal_with_fuel(trace, 2);
        }
    }
}

/// The AppBar and the first step of the operation of `bar` that `call` names.
pub open spec fn operation_of(bar: AppBar, call: AppBarCall) -> (AppBar, AppBarStep) {
    match call {
        AppBarCall::SetSize(size) => bar.setting_size(size),
        AppBarCall::SetEdge(edge) => bar.setting_edge(edge),
        AppBarCall::SetMonitorIndex(index) => (bar, bar.setting_monitor_index(index)),
        AppBarCall::Show => (bar, bar.starting_show()),
        AppBarCall::Hide => (bar, bar.starting_hide()),
    }
}

/// What `call` makes of `bar` when it succeeds.
pub open spec fn changed_by(bar: AppBar, call: AppBarCall) -> AppBar {
    match call {
        AppBarCall::SetSize(size) => AppBar { size: size as i32, ..bar },
        AppBarCall::SetEdge(edge) => AppBar { edge, ..bar },
        AppBarCall::SetMonitorIndex(monitor_index) => AppBar { monitor_index, ..bar },
        AppBarCall::Show => AppBar { registered: true, ..bar },
        AppBarCall::Hide => AppBar { registered: false, ..bar },
    }
}

/// How an operation that `call` names ends for `bar` by itself: it succeeds only by
/// making the change, and fails without it.
proof fn lemma_operation_of(bar: AppBar, call: AppBarCall, replies: Seq<Reply>)
    requires
        bar_follows(operation_of(bar, call).0, operation_of(bar, call).1, replies),
    ensures
        ({
            let start = operation_of(bar, call);
            let end = run(start.0, start.1, replies);
            match end.step {
                AppBarStep::Call { .. } => true,
                AppBarStep::Finished(Ok(())) => end.bar == changed_by(bar, call),
                AppBarStep::Finished(Err(_)) => {
                    &&& same_configuration(end.bar, bar)
                    &&& call !is Show ==> end.bar == bar
                },
                AppBarStep::Handled(_) => false,
            }
        }),
{
    match call {
        AppBarCall::SetSize(size) => law_resizing_places_the_app_bar(bar, size, replies),
        AppBarCall::SetEdge(edge) => law_changing_the_edge_places_the_app_bar(bar, edge, replies),
        AppBarCall::SetMonitorIndex(index) => law_changing_the_monitor_places_the_app_bar(
            bar,
            index,
            replies,
        ),
        AppBarCall::Show => law_showing_places_the_app_bar(bar, replies),
        AppBarCall::Hide => law_hiding_removes_the_app_bar(bar, replies),
    }
}

/// A change of a subclassed AppBar first makes the calls of the operation that it
/// names, with the argument that it gives, on the AppBar that was at hand. It ends
/// with the result of that operation. As long as the window stays attached, the
/// AppBar is then at hand again as that operation left it: changed as asked for if
/// it succeeded, and otherwise configured as it was. Nothing is pending, no operation
/// is in progress, and nothing else is changed by the last step.
pub proof fn law_changes_are_those_asked_for(
    registry: Registry,
    state: usize,
    call: AppBarCall,
    events: Seq<Event>,
)
    requires
        registry.wf(),
        registry.consistent(),
        state < registry.states.len(),
        registry.states[state as int].available(),
        follows(registry.changing(state, call).1, events),
        attached_in(events, state),
    ensures
        ({
            let bar = registry.states[state as int].app_bar->0;
            let (begun, step) = registry.changing(state, call);
            let start = operation_of(bar, call);
            let own = bar_end(start.0, start.1, events);
            let whole = trace(step, events);
            &&& bar_follows(start.0, start.1, bar_replies(start.0, start.1, events))
            &&& whole.requests.len() >= own.requests.len()
            &&& whole.requests.take(own.requests.len() as int) == wrap(own.requests)
            &&& own.step is Call ==> whole.step is Call && whole.requests.len()
                == own.requests.len()
        }),
        trace(registry.changing(state, call).1, events).step !is Call ==> {
            let bar = registry.states[state as int].app_bar->0;
            let (begun, step) = registry.changing(state, call);
            let start = operation_of(bar, call);
            let own = bar_end(start.0, start.1, events);
            let found = if events.len() == 0 {
                registry
            } else {
                events.last().registry
            };
            &&& own.step is Finished
            &&& trace(step, events).step == SubclassStep::Finished(own.step->Finished_0)
            &&& left_after(begun, step, events) == found.with_state(
                state,
                idle(found.states[state as int], Some(own.bar)),
            )
            &&& own.step->Finished_0 is Ok ==> own.bar == changed_by(bar, call)
            &&& own.step->Finished_0 is Err ==> same_configuration(own.bar, bar)
            &&& own.step->Finished_0 is Err && call !is Show ==> own.bar == bar
        },
{
    let value = registry.states[state as int];
    let bar = value.app_bar->0;
    let (begun, step) = registry.changing(state, call);
    let start = operation_of(bar, call);
    let taken = registry.with_state(state, value.taken());
    assert(registry.changing(state, call) == taken.run_advanced(
        state,
        start.0,
        start.1,
        RunGoal::Operation,
    ));
    let whole = trace(step, events);
    let own = bar_end(start.0, start.1, events);
    if start.1 is Call {
        assert(step == running(state, start.0, start.1, RunGoal::Operation));
        law_calls_are_those_of_the_app_bar(state, start.0, start.1, RunGoal::Operation, events);
        let replies = bar_replies(start.0, start.1, events);
        lemma_operation_of(bar, call, replies);
        if own.step is Call {
            assert(whole.requests.take(own.requests.len() as int) =~= wrap(own.requests));
        } else {
            let count = replies.len() as int;
            let found = events[count - 1].registry;
            let (left, next) = found.run_advanced(state, own.bar, own.step, RunGoal::Operation);
            let rest = events.skip(count);
            assert(whole.requests.take(own.requests.len() as int) =~= wrap(own.requests));
            let goal = FinishGoal::Operation { result: own.step->Finished_0 };
            assert(found.states[state as int].attached);
            lemma_drained(found, state, own.bar, goal);
            if next is Call {
                assert forall|i: int| 0 <= i < rest.len() implies (
                #[trigger] rest[i]).registry.states[state as int].attached by {
                    assert(rest[i] == events[count + i]);
                }
                lemma_in_draining(next, rest, state, own.bar, goal);
                if rest.len() > 0 {
                    assert(rest.last() == events.last());
                }
            } else {
                assert(rest.len() == 0);
                assert(events[count - 1] == events.last());
            }
        }
    } else {
        let replies = Seq::<Reply>::empty();
        assert(bar_replies(start.0, start.1, events) =~= replies);
        assert(bar_follows(start.0, start.1, replies));
        lemma_operation_of(bar, call, replies);
        let goal = FinishGoal::Operation { result: start.1->Finished_0 };
        assert(value == value.nothing_pending());
        assert(begun.states =~= registry.states.update(state as int, idle(value, Some(start.0))));
        assert(events.len() == 0);
        assert(whole.requests.take(0) =~= wrap(own.requests));
    }
}

/// A successful change of the thickness or the edge of a registered subclassed AppBar,
/// or of its monitor once that has been found, starts with the four calls that put the
/// AppBar where the change asks for.
pub proof fn law_successful_changes_place_the_app_bar(
    registry: Registry,
    state: usize,
    call: AppBarCall,
    events: Seq<Event>,
)
    requires
        registry.wf(),
        registry.consistent(),
        state < registry.states.len(),
        registry.states[state as int].available(),
        registry.states[state as int].app_bar->0.registered,
        call is SetSize || call is SetEdge || call is SetMonitorIndex,
        follows(registry.changing(state, call).1, events),
        attached_in(events, state),
        trace(registry.changing(state, call).1, events).step == SubclassStep::Finished(Ok(())),
    ensures
        ({
            let bar = registry.states[state as int].app_bar->0;
            let requests = trace(registry.changing(state, call).1, events).requests;
            let start = operation_of(bar, call);
            let replies = bar_replies(start.0, start.1, events);
            let to = changed_by(bar, call);
            if call is SetMonitorIndex {
                &&& requests.len() >= 5
                &&& requests[0] == SubclassRequest::AppBar(
                    Request::MonitorRect { index: to.monitor_index },
                )
                &&& requests.subrange(1, 5) == wrap(placing_calls(bar, to, replies.skip(1)))
            } else {
                &&& requests.len() >= 4
                &&& requests.take(4) == wrap(placing_calls(bar, to, replies))
            }
        }),
{
    law_changes_are_those_asked_for(registry, state, call, events);
    let bar = registry.states[state as int].app_bar->0;
    let requests = trace(registry.changing(state, call).1, events).requests;
    let start = operation_of(bar, call);
    let replies = bar_replies(start.0, start.1, events);
    let own = bar_end(start.0, start.1, events);
    let to = changed_by(bar, call);
    match call {
        AppBarCall::SetSize(size) => law_resizing_places_the_app_bar(bar, size, replies),
        AppBarCall::SetEdge(edge) => law_changing_the_edge_places_the_app_bar(bar, edge, replies),
        AppBarCall::SetMonitorIndex(index) => law_changing_the_monitor_places_the_app_bar(
            bar,
            index,
            replies,
        ),
        _ => {},
    }
    if call is SetMonitorIndex {
        let placed = placing_calls(bar, to, replies.skip(1));
        assert(placed.len() == 4);
        assert(own.requests.len() == 5);
        assert(requests.take(5) == wrap(own.requests));
        assert(requests[0] == requests.take(5)[0]);
        assert(requests.subrange(1, 5) =~= requests.take(5).skip(1));
        assert(wrap(own.requests).skip(1) =~= wrap(own.requests.skip(1)));
    } else {
        assert(placing_calls(bar, to, replies).len() == 4);
        assert(own.requests.len() == 4);
    }
}

/// The AppBar that a window which `found` knows has when its subclass is removed.
pub open spec fn detached_app_bar(
    found: Registry,
    hwnd: isize,
    events: Seq<Event>,
) -> Option<AppBar> {
    events[0].registry.states[found.slots[hwnd] as int].app_bar
}

/// Whether the subclass of a window has been removed.
pub open spec fn subclass_is_removed(events: Seq<Event>) -> bool {
    events.len() > 0 && events[0].reply->Remove_0 is Ok
}

/// The number of replies with which detaching a window has ended: none if it is not
/// attached; one if its subclass cannot be removed or it has no AppBar at hand; and
/// else one or two more for the removal of that AppBar, as the Shell replies.
pub open spec fn detach_length(found: Registry, hwnd: isize, events: Seq<Event>) -> nat {
    if !found.occupied(hwnd) {
        0
    } else if !subclass_is_removed(events) {
        1
    } else {
        match detached_app_bar(found, hwnd, events) {
            None => 1,
            Some(bar) => if bar.registered && events.len() > 1 && !accepted(
                events[1].reply->AppBar_0,
            ) {
                3
            } else {
                2
            },
        }
    }
}

/// The calls made so far to detach a window: none if it is not attached. Else its
/// subclass is removed, and once it is, the Shell is asked to remove the AppBar that
/// it has at hand, and asked again if it rejects that and the AppBar is registered.
pub open spec fn detach_calls(
    found: Registry,
    hwnd: isize,
    events: Seq<Event>,
) -> Seq<SubclassRequest> {
    if !found.occupied(hwnd) {
        Seq::empty()
    } else if !subclass_is_removed(events) {
        seq![SubclassRequest::Remove { hwnd }]
    } else {
        match detached_app_bar(found, hwnd, events) {
            None => seq![SubclassRequest::Remove { hwnd }],
            Some(bar) => {
                let remove = SubclassRequest::AppBar(plain_call(bar, ABM_REMOVE));
                if detach_length(found, hwnd, events) == 3 {
                    seq![SubclassRequest::Remove { hwnd }, remove, remove]
                } else {
                    seq![SubclassRequest::Remove { hwnd }, remove]
                }
            },
        }
    }
}

/// How detaching a window has ended: with the error of removing its subclass, or that
/// of the Shell's first refusal to remove its AppBar, if there is one.
pub open spec fn detach_result(
    found: Registry,
    hwnd: isize,
    events: Seq<Event>,
) -> Result<(), AppBarError> {
    if !found.occupied(hwnd) {
        Ok(())
    } else {
        match events[0].reply->Remove_0 {
            Err(error) => Err(AppBarError::Windows(error)),
            Ok(()) => if detached_app_bar(found, hwnd, events) is Some && !accepted(
                events[1].reply->AppBar_0,
            ) {
                Err(AppBarError::ShellOperationFailed { operation: "removal" })
            } else {
                Ok(())
            },
        }
    }
}

/// The registry when detaching a window has ended. Once the subclass is removed, the
/// window's slot is free, and its state is not attached and has no AppBar.
pub open spec fn detach_left(found: Registry, hwnd: isize, events: Seq<Event>) -> Registry {
    let ends = detach_length(found, hwnd, events);
    let state = found.slots[hwnd];
    let registry = events[ends - 1].registry;
    if ends == 0 {
        found
    } else if ends == 1 && subclass_is_removed(events) {
        Registry {
            slots: if registry.slots.contains_key(hwnd) && registry.slots[hwnd] == state {
                registry.slots.remove(hwnd)
            } else {
                registry.slots
            },
            states: registry.states.update(
                state as int,
                SubclassState {
                    app_bar: None,
                    attached: false,
                    operation_in_progress: true,
                    ..registry.states[state as int]
                },
            ),
            callback_messages: registry.callback_messages,
        }
    } else {
        registry
    }
}

/// Detaching a window makes its calls, and what comes then is what comes of its
/// result.
proof fn lemma_detach(found: Registry, hwnd: isize, goal: DetachGoal, events: Seq<Event>)
    requires
        found.wf(),
        follows(found.detaching(hwnd, goal).1, events),
    ensures
        events.len() < detach_length(found, hwnd, events) ==> {
            let whole = trace(found.detaching(hwnd, goal).1, events);
            &&& whole.step is Call
            &&& whole.requests == detach_calls(found, hwnd, events)
        },
        events.len() >= detach_length(found, hwnd, events) ==> {
            let ends = detach_length(found, hwnd, events) as int;
            let whole = trace(found.detaching(hwnd, goal).1, events);
            let left = detach_left(found, hwnd, events);
            let next = left.detach_ended(hwnd, goal, detach_result(found, hwnd, events)).1;
            let rest = events.skip(ends);
            &&& left.wf()
            &&& follows(next, rest)
            &&& whole.requests == detach_calls(found, hwnd, events) + trace(next, rest).requests
            &&& whole.step == trace(next, rest).step
        },
{
    let step = found.detaching(hwnd, goal).1;
    let whole = trace(step, events);
    let calls = detach_calls(found, hwnd, events);
    let state = found.slots[hwnd];
    let left = detach_left(found, hwnd, events);
    let next = left.detach_ended(hwnd, goal, detach_result(found, hwnd, events)).1;
    let e1 = events.drop_first();
    let e2 = e1.drop_first();
    let e3 = e2.drop_first();
    if !found.occupied(hwnd) {
        assert(events.skip(0) =~= events);
        assert(whole.requests =~= calls + trace(next, events).requests);
    } else if events.len() == 0 {
        assert(whole.requests =~= calls);
    } else {
        let registry = events[0].registry;
        let (r1, s1) = registry.after(step->then, events[0].reply);
        assert(events.skip(1) =~= e1);
        if events[0].reply->Remove_0 is Err {
            assert(whole.requests =~= calls + trace(next, e1).requests);
        } else {
            let value = registry.states[state as int];
            match value.app_bar {
                None => {
                    assert(r1.states =~= left.states);
                    assert(left == registry.releasing(hwnd, state).with_state(
                        state,
                        value.detached(),
                    ));
                    assert(whole.requests =~= calls + trace(next, e1).requests);
                },
                Some(bar) => {
                    let remove = SubclassRequest::AppBar(plain_call(bar, ABM_REMOVE));
                    assert(s1->request == remove);
                    assert(follows(s1, e1));
                    if events.len() == 1 {
                        assert(trace(s1, e1).requests =~= seq![remove]);
                        assert(whole.requests =~= calls);
                    } else {
                        assert(e1[0] == events[1]);
                        let s2 = e1[0].registry.after(s1->then, e1[0].reply).1;
                        assert(events.skip(2) =~= e2);
                        if detach_length(found, hwnd, events) == 2 {
                            assert(s2 == next);
                            assert(trace(s1, e1).requests =~= seq![remove] + trace(
                                next,
                                e2,
                            ).requests);
                            assert(whole.requests =~= calls + trace(next, e2).requests);
                        } else {
                            assert(s2->request == remove);
                            assert(follows(s2, e2));
                            if events.len() == 2 {
                                assert(trace(s2, e2).requests =~= seq![remove]);
                                assert(trace(s1, e1).requests =~= seq![remove, remove]);
                                assert(whole.requests =~= calls);
                            } else {
                                assert(e2[0] == events[2]);
                                let s3 = e2[0].registry.after(s2->then, e2[0].reply).1;
                                assert(events.skip(3) =~= e3);
                                assert(s3 == next);
                                assert(trace(s2, e2).requests =~= seq![remove] + trace(
                                    next,
                                    e3,
                                ).requests);
                                assert(trace(s1, e1).requests =~= seq![remove, remove] + trace(
                                    next,
                                    e3,
                                ).requests);
                                assert(whole.requests =~= calls + trace(next, e3).requests);
                            }
                        }
                    }
                },
            }
        }
    }
}

/// Dropping a [`SubclassedAppBar`] makes the calls that detach its window, and no
/// other. Whatever they reply, it ends with the result of what went before.
pub proof fn law_dropping_detaches_the_window(
    registry: Registry,
    hwnd: isize,
    result: Result<(), AppBarError>,
    events: Seq<Event>,
)
    requires
        registry.wf(),
        follows(registry.dropping(hwnd, result), events),
    ensures
        ({
            let whole = trace(registry.dropping(hwnd, result), events);
            &&& whole.requests == detach_calls(registry, hwnd, events)
            &&& if events.len() < detach_length(registry, hwnd, events) {
                whole.step is Call
            } else {
                whole.step == SubclassStep::Finished(result)
            }
        }),
{
    let goal = DetachGoal::Drop { result };
    assert(registry.dropping(hwnd, result) == registry.detaching(hwnd, goal).1);
    lemma_detach(registry, hwnd, goal, events);
    let calls = detach_calls(registry, hwnd, events);
    assert(calls + Seq::<SubclassRequest>::empty() =~= calls);
}

/// Unregistering makes the calls that detach the window, and then, if the window is
/// attached still or again, those that detach it once more, and no other. It ends as
/// the first of them did.
pub proof fn law_unregistering_detaches_the_window(
    registry: Registry,
    hwnd: isize,
    events: Seq<Event>,
)
    requires
        registry.wf(),
        follows(registry.detaching(hwnd, DetachGoal::Unregister).1, events),
    ensures
        ({
            let whole = trace(registry.detaching(hwnd, DetachGoal::Unregister).1, events);
            let ends = detach_length(registry, hwnd, events);
            let calls = detach_calls(registry, hwnd, events);
            if events.len() < ends {
                whole.step is Call && whole.requests == calls
            } else {
                let left = detach_left(registry, hwnd, events);
                let rest = events.skip(ends as int);
                &&& whole.requests == calls + detach_calls(left, hwnd, rest)
                &&& if rest.len() < detach_length(left, hwnd, rest) {
                    whole.step is Call
                } else {
                    whole.step == SubclassStep::Finished(detach_result(registry, hwnd, events))
                }
            }
        }),
{
    lemma_detach(registry, hwnd, DetachGoal::Unregister, events);
    let ends = detach_length(registry, hwnd, events);
    if events.len() >= ends {
        let left = detach_left(registry, hwnd, events);
        let rest = events.skip(ends as int);
        law_dropping_detaches_the_window(
            left,
            hwnd,
            detach_result(registry, hwnd, events),
            rest,
        );
    }
}

/// Whether a window has been detached because its registration failed with `error`:
/// the calls that detach it are made and no other, and the registration ends with
/// `error` once the window is detached. If the subclass could not be removed, it ends
/// with both errors, and if the Shell refused to remove an AppBar, with that.
pub open spec fn rolls_back(
    found: Registry,
    hwnd: isize,
    error: AppBarError,
    events: Seq<Event>,
    requests: Seq<SubclassRequest>,
    step: SubclassStep,
) -> bool {
    &&& requests == detach_calls(found, hwnd, events)
    &&& if events.len() < detach_length(found, hwnd, events) {
        step is Call
    } else {
        step == SubclassStep::Registered(
            Err(
                match detach_result(found, hwnd, events) {
                    Ok(()) => error,
                    Err(AppBarError::Windows(subclass_error)) => {
                        AppBarError::SubclassRegistrationCleanup {
                            registration_error: Box::new(error),
                            subclass_error,
                        }
                    },
                    Err(refused) => refused,
                },
            ),
        )
    }
}

/// A registration that has failed detaches its window again.
pub proof fn law_failed_registrations_are_rolled_back(
    registry: Registry,
    hwnd: isize,
    state: usize,
    error: AppBarError,
    events: Seq<Event>,
)
    requires
        registry.wf(),
        follows(registry.detaching(hwnd, DetachGoal::Rollback { state, error }).1, events),
    ensures
        ({
            let step = registry.detaching(hwnd, DetachGoal::Rollback { state, error }).1;
            let whole = trace(step, events);
            rolls_back(registry, hwnd, error, events, whole.requests, whole.step)
        }),
{
    lemma_detach(registry, hwnd, DetachGoal::Rollback { state, error }, events);
    let calls = detach_calls(registry, hwnd, events);
    assert(calls + Seq::<SubclassRequest>::empty() =~= calls);
}

/// When a window is destroyed, the calls that detach it are made, then the message is
/// passed on, and the answer to that is returned. No other call is made.
pub proof fn law_destruction_detaches_the_window(
    registry: Registry,
    hwnd: isize,
    message: WindowMessage,
    events: Seq<Event>,
)
    requires
        registry.wf(),
        message.message == WM_DESTROY,
        follows(registry.receiving(hwnd, message).1, events),
    ensures
        ({
            let whole = trace(registry.receiving(hwnd, message).1, events);
            let ends = detach_length(registry, hwnd, events);
            let calls = detach_calls(registry, hwnd, events);
            if events.len() < ends {
                whole.step is Call && whole.requests == calls
            } else {
                &&& whole.requests == calls.push(SubclassRequest::CallNext { hwnd, message })
                &&& if events.len() == ends {
                    whole.step is Call
                } else {
                    whole.step == SubclassStep::Replied(events[ends as int].reply->CallNext_0)
                }
            }
        }),
{
    lemma_detach(registry, hwnd, DetachGoal::Destroy { message }, events);
    let ends = detach_length(registry, hwnd, events);
    if events.len() >= ends {
        let rest = events.skip(ends as int);
        let next = SubclassStep::forwarding(hwnd, message);
        let calls = detach_calls(registry, hwnd, events);
        reveal_with_fuel(follows, 2);
        reveal_with_fuel(trace, 2);
        assert(trace(next, rest).requests =~= seq![SubclassRequest::CallNext { hwnd, message }]);
        assert(calls + trace(next, rest).requests =~= calls.push(
            SubclassRequest::CallNext { hwnd, message },
        ));
        if rest.len() > 0 {
            assert(rest[0] == events[ends as int]);
        }
    }
}

/// Registering a window that is not attached installs the subclass, and if that fails
/// ends with the error of it. Else the window is asked for its handle, if the
/// thickness is one that an AppBar can have, and then an AppBar for the window found,
/// configured as asked for, is registered with the calls that that takes. If the
/// thickness is refused, no handle is found or the AppBar is not registered, the
/// window is detached again. A window that is attached is not registered, without a
/// call.
pub proof fn law_registrations_make_their_calls(
    registry: Registry,
    hwnd: isize,
    registration: Registration,
    events: Seq<Event>,
)
    requires
        registry.wf(),
        registry.states.len() < usize::MAX,
        follows(registry.registering(hwnd, registration).1, events),
    ensures
        ({
            let whole = trace(registry.registering(hwnd, registration).1, events);
            if registry.occupied(hwnd) {
                &&& whole.requests == Seq::<SubclassRequest>::empty()
                &&& whole.step == SubclassStep::Registered(
                    Err(AppBarError::SubclassAlreadyRegistered),
                )
            } else {
                &&& whole.requests.len() > 0
                &&& whole.requests[0] == (SubclassRequest::Install { hwnd })
                &&& events.len() == 0 ==> whole.step is Call && whole.requests.len() == 1
                &&& events.len() > 0 ==> match events[0].reply->Install_0 {
                    Err(error) => {
                        &&& whole.requests.len() == 1
                        &&& whole.step == SubclassStep::Registered(
                            Err(AppBarError::Windows(error)),
                        )
                    },
                    Ok(()) => if registration.size == 0 || registration.size > 0x7fff_ffff {
                        rolls_back(
                            events[0].registry,
                            hwnd,
                            AppBarError::InvalidSize,
                            events.skip(1),
                            whole.requests.skip(1),
                            whole.step,
                        )
                    } else {
                        &&& whole.requests.len() >= 2
                        &&& whole.requests[1] == SubclassRequest::WindowHandle
                        &&& events.len() == 1 ==> whole.step is Call && whole.requests.len() == 2
                        &&& events.len() > 1 ==> handle_leads_on(
                            hwnd,
                            registration,
                            events[1],
                            events.skip(2),
                            whole.requests.skip(2),
                            whole.step,
                        )
                    },
                }
            }
        }),
{
    let step = registry.registering(hwnd, registration).1;
    let whole = trace(step, events);
    let state = registry.states.len() as usize;
    if !registry.occupied(hwnd) && events.len() > 0 {
        let e1 = events.drop_first();
        assert(events.skip(1) =~= e1);
        let s1 = events[0].registry.after(step->then, events[0].reply).1;
        assert(whole.requests =~= seq![step->request] + trace(s1, e1).requests);
        if events[0].reply->Install_0 is Ok {
            assert(whole.requests.skip(1) =~= trace(s1, e1).requests);
            if registration.size == 0 || registration.size > 0x7fff_ffff {
                law_failed_registrations_are_rolled_back(
                    events[0].registry,
                    hwnd,
                    state,
                    AppBarError::InvalidSize,
                    e1,
                );
            } else if events.len() > 1 {
                let e2 = e1.drop_first();
                assert(e1[0] == events[1]);
                assert(events.skip(2) =~= e2);
                assert(follows(s1, e1));
                let s2 = e1[0].registry.after(s1->then, e1[0].reply).1;
                assert(trace(s1, e1).requests =~= seq![s1->request] + trace(s2, e2).requests);
                assert(whole.requests.skip(2) =~= trace(s2, e2).requests);
                lemma_handle_leads_on(hwnd, state, registration, events[1], e2);
            }
        }
    }
}

/// The AppBar for which a registration for `window` starts.
pub open spec fn asked_for(registration: Registration, window: isize) -> AppBar {
    AppBar {
        hwnd: window,
        monitor_index: registration.monitor_index,
        edge: registration.edge,
        size: registration.size as i32,
        callback_message: registration.callback_message,
        registered: false,
    }
}

/// Whether a registration goes on as it is to once the window has been asked for its
/// handle: without one the window is detached. With one, the AppBar asked for is
/// registered with its own calls, and if that fails, the window is detached.
pub open spec fn handle_leads_on(
    hwnd: isize,
    registration: Registration,
    asked: Event,
    events: Seq<Event>,
    requests: Seq<SubclassRequest>,
    step: SubclassStep,
) -> bool {
    match asked.reply->WindowHandle_0 {
        Err(error) => rolls_back(asked.registry, hwnd, error, events, requests, step),
        Ok(window) => {
            let bar = asked_for(registration, window);
            let count = bar_replies(bar, bar.registering(), events).len() as int;
            let own = bar_end(bar, bar.registering(), events);
            &&& requests.len() >= own.requests.len()
            &&& requests.take(own.requests.len() as int) == wrap(own.requests)
            &&& match own.step {
                AppBarStep::Call { .. } => step is Call && requests.len() == own.requests.len(),
                AppBarStep::Finished(Ok(())) => own.bar == AppBar { registered: true, ..bar },
                AppBarStep::Finished(Err(error)) => {
                    &&& 0 < count <= events.len()
                    &&& rolls_back(
                        events[count - 1].registry,
                        hwnd,
                        error,
                        events.skip(count),
                        requests.skip(own.requests.len() as int),
                        step,
                    )
                },
                AppBarStep::Handled(_) => false,
            }
        },
    }
}

proof fn lemma_handle_leads_on(
    hwnd: isize,
    state: usize,
    registration: Registration,
    asked: Event,
    events: Seq<Event>,
)
    requires
        asked.registry.wf(),
        0 < registration.size <= 0x7fff_ffff,
        asked.reply is WindowHandle,
        follows(
            asked.registry.after(
                SubclassOperation::Handle { hwnd, state, registration },
                asked.reply,
            ).1,
            events,
        ),
    ensures
        ({
            let step = asked.registry.after(
                SubclassOperation::Handle { hwnd, state, registration },
                asked.reply,
            ).1;
            let whole = trace(step, events);
            handle_leads_on(hwnd, registration, asked, events, whole.requests, whole.step)
        }),
{
    let step = asked.registry.after(
        SubclassOperation::Handle { hwnd, state, registration },
        asked.reply,
    ).1;
    let whole = trace(step, events);
    match asked.reply->WindowHandle_0 {
        Err(error) => {
            law_failed_registrations_are_rolled_back(asked.registry, hwnd, state, error, events);
        },
        Ok(window) => {
            let bar = asked_for(registration, window);
            let goal = RunGoal::Register { hwnd };
            assert(step == running(state, bar, bar.registering(), goal));
            law_calls_are_those_of_the_app_bar(state, bar, bar.registering(), goal, events);
            let replies = bar_replies(bar, bar.registering(), events);
            let own = bar_end(bar, bar.registering(), events);
            law_registering_places_the_app_bar(bar, replies);
            assert(whole.requests.take(own.requests.len() as int) =~= wrap(own.requests));
            if let AppBarStep::Finished(Err(error)) = own.step {
                let count = replies.len() as int;
                let found = events[count - 1].registry;
                law_failed_registrations_are_rolled_back(
                    found,
                    hwnd,
                    state,
                    error,
                    events.skip(count),
                );
                let next = found.detaching(hwnd, DetachGoal::Rollback { state, error }).1;
                assert(whole.requests.skip(own.requests.len() as int) =~= trace(
                    next,
                    events.skip(count),
                ).requests);
            }
        },
    }
}

/// A message to a window whose AppBar is at hand, other than `WM_DESTROY`, is given to
/// that AppBar: the window first makes the calls with which the AppBar acts on it.
pub proof fn law_messages_reach_the_app_bar(
    registry: Registry,
    hwnd: isize,
    message: WindowMessage,
    events: Seq<Event>,
)
    requires
        registry.wf(),
        message.message != WM_DESTROY,
        registry.slots.contains_key(hwnd),
        registry.states[registry.slots[hwnd] as int].app_bar is Some,
        !registry.states[registry.slots[hwnd] as int].operation_in_progress,
        follows(registry.receiving(hwnd, message).1, events),
    ensures
        ({
            let bar = registry.states[registry.slots[hwnd] as int].app_bar->0;
            let start = bar.handling(message.message, message.wparam);
            let own = bar_end(bar, start, events);
            let whole = trace(registry.receiving(hwnd, message).1, events);
            &&& start is Call ==> bar_follows(bar, start, bar_replies(bar, start, events))
            &&& start is Call ==> whole.requests.len() >= own.requests.len()
            &&& start is Call ==> whole.requests.take(own.requests.len() as int) == wrap(
                own.requests,
            )
            &&& start is Call && own.step is Call ==> whole.step is Call && whole.requests.len()
                == own.requests.len()
        }),
{
    let state = registry.slots[hwnd];
    let bar = registry.states[state as int].app_bar->0;
    let start = bar.handling(message.message, message.wparam);
    let goal = RunGoal::Message { hwnd, message };
    if start is Call {
        let step = registry.receiving(hwnd, message).1;
        assert(step == running(state, bar, start, goal));
        law_calls_are_those_of_the_app_bar(state, bar, start, goal, events);
        let own = bar_end(bar, start, events);
        assert(trace(step, events).requests.take(own.requests.len() as int) =~= wrap(
            own.requests,
        ));
    }
}

/// When the window of a registered AppBar has moved and no operation is in progress,
/// the Shell is told first, and then the message is passed on, once, and the answer to
/// that is returned. If the window is attached and nothing is pending by then, no
/// other call is made.
pub proof fn law_moved_windows_are_reported(
    registry: Registry,
    hwnd: isize,
    message: WindowMessage,
    events: Seq<Event>,
)
    requires
        registry.wf(),
        registry.consistent(),
        message.message == WM_WINDOWPOSCHANGED,
        registry.slots.contains_key(hwnd),
        ({
            let value = registry.states[registry.slots[hwnd] as int];
            &&& !value.operation_in_progress
            &&& value.callback_message != WM_WINDOWPOSCHANGED
            &&& value.app_bar matches Some(bar) && bar.registered
        }),
        follows(registry.receiving(hwnd, message).1, events),
    ensures
        ({
            let state = registry.slots[hwnd];
            let bar = registry.states[state as int].app_bar->0;
            let whole = trace(registry.receiving(hwnd, message).1, events);
            let report = SubclassRequest::AppBar(plain_call(bar, ABM_WINDOWPOSCHANGED));
            &&& whole.requests.len() > 0
            &&& whole.requests[0] == report
            &&& whole.step is Call || passed_on(whole, events, hwnd, message)
            &&& events.len() > 0 ==> {
                let value = events[0].registry.states[state as int];
                value.attached && !value.pending_reposition
                    && !value.pending_window_position_changed ==> whole.requests == seq![
                    report,
                    SubclassRequest::CallNext { hwnd, message },
                ]
            }
        }),
{
    let state = registry.slots[hwnd];
    let bar = registry.states[state as int].app_bar->0;
    let step = registry.receiving(hwnd, message).1;
    let report = SubclassRequest::AppBar(plain_call(bar, ABM_WINDOWPOSCHANGED));
    law_other_messages_are_passed_on(registry, hwnd, message, events);
    let start = bar.handling(message.message, message.wparam);
    law_messages_are_acted_on(bar, message.message, message.wparam, Seq::empty());
    assert(run(bar, start, Seq::empty()).requests[0] == start->request);
    assert(step->request == report);
    if events.len() > 0 {
        let value = events[0].registry.states[state as int];
        let next = events[0].registry.after(step->then, events[0].reply).1;
        if value.attached && !value.pending_reposition && !value.pending_window_position_changed {
            reveal_with_fuel(follows, 3);
            reveal_with_fuel(trace, 3);
            assert(next->request == (SubclassRequest::CallNext { hwnd, message }));
            assert(trace(next, events.drop_first()).requests =~= seq![next->request]);
            assert(trace(step, events).requests =~= seq![report, next->request]);
        }
    }
}

/// When a registered AppBar is notified of a changed position and no operation is in
/// progress, the window first makes the calls that put the AppBar where it is
/// configured to be.
pub proof fn law_notified_app_bars_are_placed(
    registry: Registry,
    hwnd: isize,
    message: WindowMessage,
    events: Seq<Event>,
)
    requires
        registry.wf(),
        registry.consistent(),
        message.message != WM_DESTROY,
        message.wparam as int % 0x1_0000_0000 == 1,
        registry.slots.contains_key(hwnd),
        ({
            let value = registry.states[registry.slots[hwnd] as int];
            &&& !value.operation_in_progress
            &&& value.callback_message == message.message
            &&& value.app_bar matches Some(bar) && bar.registered
        }),
        follows(registry.receiving(hwnd, message).1, events),
    ensures
        ({
            let bar = registry.states[registry.slots[hwnd] as int].app_bar->0;
            let start = bar.handling(message.message, message.wparam);
            let replies = bar_replies(bar, start, events);
            let calls = placing_calls(bar, bar, replies);
            let whole = trace(registry.receiving(hwnd, message).1, events);
            &&& replies.len() <= events.len()
            &&& whole.requests.len() >= calls.len()
            &&& whole.requests.take(calls.len() as int) == wrap(calls)
            &&& replies.len() < placing_length(replies) ==> whole.step is Call
                && whole.requests.len() == calls.len()
        }),
{
    let bar = registry.states[registry.slots[hwnd] as int].app_bar->0;
    let start = bar.handling(message.message, message.wparam);
    lemma_bar_replies_len(bar, start, events);
    law_messages_are_acted_on(bar, message.message, message.wparam, Seq::empty());
    law_messages_reach_the_app_bar(registry, hwnd, message, events);
    law_messages_are_acted_on(
        bar,
        message.message,
        message.wparam,
        bar_replies(bar, start, events),
    );
}

/// A message to a window that has a slot but no AppBar, and no operation in progress,
/// is passed on, and changes nothing. So is a message that asks nothing of the AppBar
/// at hand, unless it is the callback message, which is answered with zero.
pub proof fn law_messages_without_effect(
    registry: Registry,
    hwnd: isize,
    message: WindowMessage,
)
    requires
        registry.wf(),
        registry.consistent(),
        message.message != WM_DESTROY,
        registry.slots.contains_key(hwnd),
        ({
            let value = registry.states[registry.slots[hwnd] as int];
            &&& value.attached
            &&& !value.operation_in_progress
            &&& value.app_bar matches Some(bar) ==> {
                ||| !bar.registered
                ||| {
                    &&& message.message == bar.callback_message
                    &&& message.wparam as int % 0x1_0000_0000 != 1
                }
                ||| {
                    &&& message.message != bar.callback_message
                    &&& message.message != WM_WINDOWPOSCHANGED
                }
            }
        }),
    ensures
        ({
            let value = registry.states[registry.slots[hwnd] as int];
            let (next, step) = registry.receiving(hwnd, message);
            &&& next == registry
            &&& if value.app_bar is Some && message.message == value.callback_message {
                step == SubclassStep::Replied(0)
            } else {
                &&& step is Call
                &&& step->request == (SubclassRequest::CallNext { hwnd, message })
            }
        }),
{
    let state = registry.slots[hwnd];
    let value = registry.states[state as int];
    let (next, step) = registry.receiving(hwnd, message);
    assert(value == value.nothing_pending());
    assert(next.states =~= registry.states);
}

/// A message to a window without a slot is answered with zero if the window last
/// reserved one with it as its callback message. Every other message to such a window
/// is passed on, once, and the answer to that is returned. Neither changes anything.
pub proof fn law_messages_to_windows_without_a_slot(
    registry: Registry,
    hwnd: isize,
    message: WindowMessage,
    events: Seq<Event>,
)
    requires
        registry.wf(),
        message.message != WM_DESTROY,
        !registry.slots.contains_key(hwnd),
        follows(registry.receiving(hwnd, message).1, events),
    ensures
        ({
            let (next, step) = registry.receiving(hwnd, message);
            let whole = trace(step, events);
            &&& next == registry
            &&& if registry.callback_messages.contains_key(hwnd) && message.message
                == registry.callback_messages[hwnd] {
                &&& whole.requests == Seq::<SubclassRequest>::empty()
                &&& whole.step == SubclassStep::Replied(0)
            } else {
                &&& whole.requests == seq![SubclassRequest::CallNext { hwnd, message }]
                &&& if events.len() == 0 {
                    whole.step is Call
                } else {
                    &&& whole.step == SubclassStep::Replied(events[0].reply->CallNext_0)
                    &&& left_by(step, events) == events[0].registry
                }
            }
        }),
{
    reveal_with_fuel(follows, 2);
    reveal_with_fuel(trace, 2);
}

/// A message that reaches a window while an operation is in progress for it is
/// answered with zero if it is the callback message, and else passed on. A
/// notification of a changed position makes a repositioning pending, and news of a
/// moved window make those pending. Nothing else changes.
pub proof fn law_messages_during_an_operation_wait(
    registry: Registry,
    hwnd: isize,
    message: WindowMessage,
)
    requires
        registry.wf(),
        registry.slots.contains_key(hwnd),
        registry.states[registry.slots[hwnd] as int].operation_in_progress,
        message.message != WM_DESTROY,
    ensures
        ({
            let state = registry.slots[hwnd];
            let value = registry.states[state as int];
            let (next, step) = registry.receiving(hwnd, message);
            let notified = message.message == value.callback_message;
            &&& if notified {
                step == SubclassStep::Replied(0)
            } else {
                &&& step is Call
                &&& step->request == (SubclassRequest::CallNext { hwnd, message })
            }
            &&& next == Registry {
                slots: registry.slots,
                states: registry.states.update(
                    state as int,
                    SubclassState {
                        pending_reposition: value.pending_reposition || (notified
                            && message.wparam as int % 0x1_0000_0000 == 1),
                        pending_window_position_changed: value.pending_window_position_changed || (
                        !notified && message.message == WM_WINDOWPOSCHANGED),
                        ..value
                    },
                ),
                callback_messages: registry.callback_messages,
            }
        }),
{
}

/// When an operation ends while a repositioning is pending, nothing is pending any
/// more, and the calls that put a registered AppBar where it is configured to be are
/// made first. If news of a moved window were pending too, they are sent to the Shell
/// next, whether or not that succeeded.
pub proof fn law_pending_repositionings_come_first(
    registry: Registry,
    state: usize,
    bar: AppBar,
    goal: FinishGoal,
    events: Seq<Event>,
)
    requires
        state < registry.states.len(),
        registry.states[state as int].pending_reposition,
        registry.states[state as int].owns(bar),
        bar.registered,
        follows(registry.drained(state, bar, goal).1, events),
    ensures
        ({
            let value = registry.states[state as int];
            let (begun, step) = registry.drained(state, bar, goal);
            &&& step is Call
            &&& begun == registry.with_state(
                state,
                SubclassState {
                    pending_reposition: false,
                    pending_window_position_changed: false,
                    ..value
                },
            )
        }),
        ({
            let value = registry.states[state as int];
            let whole = trace(registry.drained(state, bar, goal).1, events);
            let replies = bar_replies(
                bar,
                bar.handling(value.callback_message, 1),
                events,
            );
            let calls = placing_calls(bar, bar, replies);
            &&& whole.requests.len() >= calls.len()
            &&& whole.requests.take(calls.len() as int) == wrap(calls)
            &&& if replies.len() < placing_length(replies) {
                whole.step is Call && whole.requests.len() == calls.len()
            } else {
                value.pending_window_position_changed && value.callback_message
                    != WM_WINDOWPOSCHANGED ==> {
                    &&& whole.requests.len() > calls.len()
                    &&& whole.requests[calls.len() as int] == SubclassRequest::AppBar(
                        plain_call(bar, ABM_WINDOWPOSCHANGED),
                    )
                }
            }
        }),
{
    let value = registry.states[state as int];
    let step = registry.drained(state, bar, goal).1;
    let start = bar.handling(value.callback_message, 1);
    let notify = value.pending_window_position_changed;
    law_messages_are_acted_on(bar, value.callback_message, 1, Seq::empty());
    assert(start is Call);
    assert(step == draining(state, bar, start, notify, goal));
    law_draining_calls_are_those_of_the_app_bar(state, bar, start, notify, goal, events);
    let replies = bar_replies(bar, start, events);
    law_messages_are_acted_on(bar, value.callback_message, 1, replies);
    let own = bar_end(bar, start, events);
    let whole = trace(step, events);
    assert(whole.requests.take(own.requests.len() as int) =~= wrap(own.requests));
    if own.step !is Call && notify && value.callback_message != WM_WINDOWPOSCHANGED {
        let count = replies.len() as int;
        let next = events[count - 1].registry.drain_advanced(
            state,
            own.bar,
            own.step,
            notify,
            goal,
        ).1;
        let report = bar.handling(WM_WINDOWPOSCHANGED, 0);
        law_messages_are_acted_on(bar, WM_WINDOWPOSCHANGED, 0, Seq::empty());
        assert(run(bar, report, Seq::empty()).requests[0] == report->request);
        assert(next->request == SubclassRequest::AppBar(plain_call(bar, ABM_WINDOWPOSCHANGED)));
        assert(trace(next, events.skip(count)).requests[0] == next->request);
    }
}

/// When an operation ends while only news of a moved window are pending, nothing is
/// pending any more, and the news of a registered AppBar are sent to the Shell first.
pub proof fn law_pending_news_are_sent(
    registry: Registry,
    state: usize,
    bar: AppBar,
    goal: FinishGoal,
)
    requires
        state < registry.states.len(),
        !registry.states[state as int].pending_reposition,
        registry.states[state as int].pending_window_position_changed,
        bar.callback_message != WM_WINDOWPOSCHANGED,
        bar.registered,
    ensures
        ({
            let value = registry.states[state as int];
            let (begun, step) = registry.drained(state, bar, goal);
            &&& begun == registry.with_state(
                state,
                SubclassState { pending_window_position_changed: false, ..value },
            )
            &&& step is Call
            &&& step->request == SubclassRequest::AppBar(plain_call(bar, ABM_WINDOWPOSCHANGED))
        }),
{
}

/// When nothing is pending, or the AppBar is not registered, an operation gives its
/// AppBar back to an attached window and ends. If the window has been detached, a
/// registered AppBar is removed from the Shell instead, and the operation then ends
/// the same way, whatever the Shell replies. Nothing else changes.
pub proof fn law_operations_give_their_app_bar_back(
    registry: Registry,
    state: usize,
    bar: AppBar,
    goal: FinishGoal,
    reply: Reply,
    later: Registry,
)
    requires
        state < registry.states.len(),
        !bar.registered || {
            &&& !registry.states[state as int].pending_reposition
            &&& !registry.states[state as int].pending_window_position_changed
        },
        reply is AppBarMessage,
    ensures
        ({
            let value = registry.states[state as int];
            let (left, step) = registry.drained(state, bar, goal);
            let app_bar = if value.attached {
                Some(bar)
            } else {
                value.app_bar
            };
            &&& left == registry.with_state(state, idle(value, app_bar))
            &&& if value.attached || !bar.registered {
                ends_as(step, state, goal)
            } else {
                let (end, last) = later.after(step->then, SubclassReply::AppBar(reply));
                &&& step is Call
                &&& step->request == SubclassRequest::AppBar(plain_call(bar, ABM_REMOVE))
                &&& end == later
                &&& ends_as(last, state, goal)
            }
        }),
{
    let value = registry.states[state as int];
    let left = registry.drained(state, bar, goal).0;
    let app_bar = if value.attached {
        Some(bar)
    } else {
        value.app_bar
    };
    assert(left.states =~= registry.states.update(state as int, idle(value, app_bar)));
}

/// If the subclass of a window whose registration failed cannot be removed, its state
/// stops being in an operation, with nothing pending, and nothing else changes.
pub proof fn law_aborted_registrations_leave_the_window_attached(
    registry: Registry,
    hwnd: isize,
    state: usize,
    error: AppBarError,
    subclass_error: windows_result::Error,
)
    requires
        registry.wf(),
        registry.occupied(hwnd),
        registry.slots[hwnd] == state,
    ensures
        ({
            let step = registry.detaching(hwnd, DetachGoal::Rollback { state, error }).1;
            let left = registry.after(
                step->then,
                SubclassReply::Remove(Err(subclass_error)),
            ).0;
            let value = registry.states[state as int];
            left == registry.with_state(state, idle(value, value.app_bar))
        }),
{
}

/// An operation can go on with every reply to the call that it waits for, but for
/// rectangles on which the AppBar that it has could not go on.
pub proof fn law_replies_are_accepted(
    step: SubclassStep,
    count: nat,
    reply: SubclassReply,
)
    requires
        step is Call,
        step.wf(count),
    ensures
        step->then.awaits(reply) <==> match step->request {
            SubclassRequest::AppBar(_) => reply matches SubclassReply::AppBar(answer) && (
            match step->then {
                SubclassOperation::Run { operation, .. } => operation.awaits(answer),
                SubclassOperation::Drain { operation, .. } => operation.awaits(answer),
                SubclassOperation::Dispose { operation, .. } => operation.awaits(answer),
                SubclassOperation::Release { operation, .. } => operation.awaits(answer),
                _ => false,
            }),
            SubclassRequest::WindowHandle => reply is WindowHandle,
            SubclassRequest::Install { .. } => reply is Install,
            SubclassRequest::Remove { .. } => reply is Remove,
            SubclassRequest::CallNext { .. } => reply is CallNext,
        },
{
}

/// An operation may take the AppBar of a window exactly if the window is attached, no
/// operation is in progress and the AppBar is at hand. What the [`SubclassedAppBar`]
/// tells is of the AppBar of its own state.
pub proof fn law_handles_stand_for_their_state(app_bar: SubclassedAppBar, registry: Registry)
    requires
        registry.wf(),
        app_bar.state < registry.states.len(),
    ensures
        ({
            let value = registry.states[app_bar.state as int];
            &&& app_bar.is_available(registry) <==> {
                &&& value.attached
                &&& !value.operation_in_progress
                &&& value.app_bar is Some
            }
            &&& app_bar.has_app_bar(registry) <==> value.app_bar is Some
            &&& value.app_bar matches Some(bar) ==> app_bar.app_bar_in(registry) == bar
        }),
{
}

/// What happens to a state changes only what it is about. An operation takes the
/// AppBar; a window that is detached loses it for good; a window that is being
/// registered is attached, with its operation in progress; and what is taken off what
/// is pending leaves the rest.
pub proof fn law_states_change_in_part(value: SubclassState, bar: AppBar, callback_message: u32)
    ensures
        value.taken() == (SubclassState { app_bar: None, operation_in_progress: true, ..value }),
        value.detached() == (SubclassState {
            app_bar: None,
            attached: false,
            operation_in_progress: true,
            ..value
        }),
        value.returned(bar).app_bar == if value.attached {
            Some(bar)
        } else {
            value.app_bar
        },
        value.returned(bar) == (SubclassState {
            app_bar: value.returned(bar).app_bar,
            operation_in_progress: false,
            ..value
        }),
        value.nothing_pending() == (SubclassState {
            pending_reposition: false,
            pending_window_position_changed: false,
            ..value
        }),
        SubclassState::registering_state(callback_message) == (SubclassState {
            app_bar: None,
            callback_message,
            attached: true,
            operation_in_progress: true,
            pending_reposition: false,
            pending_window_position_changed: false,
        }),
{
}

/// Changing a state of a registry leaves its other states and all slots alone.
/// Reserving a slot adds a state, lets the window's slot refer to it and remembers its
/// callback message; other slots and states stay. Releasing frees the window's slot if
/// it refers to the given state, and changes nothing otherwise.
pub proof fn law_registries_change_in_part(
    registry: Registry,
    state: usize,
    value: SubclassState,
    hwnd: isize,
    other: isize,
    index: int,
)
    requires
        registry.states.len() < usize::MAX,
        state < registry.states.len(),
        0 <= index < registry.states.len(),
        other != hwnd,
    ensures
        ({
            let changed = registry.with_state(state, value);
            &&& changed.slots == registry.slots
            &&& changed.callback_messages == registry.callback_messages
            &&& changed.states.len() == registry.states.len()
            &&& changed.states[state as int] == value
            &&& index != state ==> changed.states[index] == registry.states[index]
        }),
        ({
            let reserved = registry.reserving(hwnd, value);
            &&& reserved.slots.contains_key(hwnd)
            &&& reserved.slots[hwnd] == registry.states.len()
            &&& reserved.slots.contains_key(other) == registry.slots.contains_key(other)
            &&& registry.slots.contains_key(other) ==> reserved.slots[other]
                == registry.slots[other]
            &&& reserved.states == registry.states.push(value)
            &&& reserved.callback_messages == registry.callback_messages.insert(
                hwnd,
                value.callback_message,
            )
        }),
        ({
            let released = registry.releasing(hwnd, state);
            &&& released.states == registry.states
            &&& released.callback_messages == registry.callback_messages
            &&& if registry.slots.contains_key(hwnd) && registry.slots[hwnd] == state {
                released.slots == registry.slots.remove(hwnd)
            } else {
                released.slots == registry.slots
            }
        }),
        registry.occupied(hwnd) <==> registry.slots.contains_key(hwnd)
            && registry.states[registry.slots[hwnd] as int].attached,
{
}

proof fn lemma_message_draining(
    step: SubclassStep,
    events: Seq<Event>,
    state: usize,
    bar: AppBar,
    goal: FinishGoal,
)
    requires
        in_draining(step, state, bar, goal),
        follows(step, events),
        attached_in(events, state),
    ensures
        in_draining(trace(step, events).step, state, bar, goal) || trace(
            step,
            events,
        ).step is Replied || {
            let found = events.last().registry;
            &&& events.len() > 0
            &&& state < found.states.len()
            &&& ends_as(trace(step, events).step, state, goal)
            &&& left_by(step, events) == found.with_state(
                state,
                idle(found.states[state as int], Some(bar)),
            )
        },
        goal is Message && goal->consumed && trace(step, events).step !is Call ==> {
            let found = events.last().registry;
            &&& events.len() > 0
            &&& left_by(step, events) == found.with_state(
                state,
                idle(found.states[state as int], Some(bar)),
            )
        },
    decreases events.len(),
{
    if events.len() > 0 {
        let registry = events[0].registry;
        let after = bar.after(step->then->Drain_operation, events[0].reply->AppBar_0).0;
        let next = registry.after(step->then, events[0].reply).1;
        lemma_attached_in(events, state);
        assert(after == bar);
        lemma_drained(registry, state, bar, goal);
        if in_draining(next, state, bar, goal) {
            lemma_message_draining(next, events.drop_first(), state, bar, goal);
        } else {
            reveal_with_fuel(follows, 3);
            reveal_with_fuel(trace, 3);
        }
    }
}

/// When a window that stays attached has handled a message and passes it on, or
/// answers it with zero, its AppBar is at hand again as it was, nothing is pending and
/// no operation is in progress.
pub proof fn law_messages_give_the_app_bar_back(
    registry: Registry,
    hwnd: isize,
    message: WindowMessage,
    events: Seq<Event>,
)
    requires
        registry.wf(),
        registry.consistent(),
        message.message != WM_DESTROY,
        registry.slots.contains_key(hwnd),
        registry.states[registry.slots[hwnd] as int].app_bar is Some,
        follows(registry.receiving(hwnd, message).1, events),
        attached_in(events, registry.slots[hwnd]),
    ensures
        ({
            let state = registry.slots[hwnd];
            let bar = registry.states[state as int].app_bar;
            let (begun, step) = registry.receiving(hwnd, message);
            let end = trace(step, events).step;
            let found = if events.len() == 0 {
                registry
            } else {
                events.last().registry
            };
            end is Call && end->request is CallNext ==> left_after(begun, step, events)
                == found.with_state(state, idle(found.states[state as int], bar))
        }),
        ({
            let state = registry.slots[hwnd];
            let value = registry.states[state as int];
            let (begun, step) = registry.receiving(hwnd, message);
            let end = trace(step, events);
            let found = if events.len() == 0 {
                registry
            } else {
                events.last().registry
            };
            end.step is Replied && (forall|i: int|
                0 <= i < end.requests.len() ==> #[trigger] end.requests[i] !is CallNext)
                ==> left_after(begun, step, events) == found.with_state(
                state,
                idle(found.states[state as int], value.app_bar),
            )
        }),
{
    let state = registry.slots[hwnd];
    let value = registry.states[state as int];
    let bar = value.app_bar->0;
    let (begun, step) = registry.receiving(hwnd, message);
    let start = bar.handling(message.message, message.wparam);
    let run_goal = RunGoal::Message { hwnd, message };
    assert(value == value.nothing_pending());
    if start is Call {
        assert(step == running(state, bar, start, run_goal));
        law_calls_are_those_of_the_app_bar(state, bar, start, run_goal, events);
        let replies = bar_replies(bar, start, events);
        law_messages_leave_the_app_bar_as_it_is(bar, message.message, message.wparam, replies);
        let own = bar_end(bar, start, events);
        let whole = trace(step, events);
        if own.step is Call {
            if events.len() == 0 {
                assert(whole.step == step);
            }
            lemma_trace_ends_in_the_app_bar(state, bar, start, run_goal, events);
        } else {
            let count = replies.len() as int;
            let found = events[count - 1].registry;
            let (left, next) = found.run_advanced(state, own.bar, own.step, run_goal);
            let rest = events.skip(count);
            let goal = FinishGoal::Message { hwnd, message, consumed: own.step.consumed() };
            assert(found.states[state as int].attached);
            lemma_drained(found, state, bar, goal);
            assert forall|i: int| 0 <= i < rest.len() implies (
            #[trigger] rest[i]).registry.states[state as int].attached by {
                assert(rest[i] == events[count + i]);
            }
            if rest.len() > 0 {
                assert(rest.last() == events.last());
            } else {
                assert(events[count - 1] == events.last());
            }
            let tail = trace(next, rest);
            if in_draining(next, state, bar, goal) {
                lemma_message_draining(next, rest, state, bar, goal);
                if tail.step is Replied && !own.step.consumed() {
                    lemma_unconsumed_is_passed_on(next, rest, state, bar, goal);
                    lemma_call_next_in_tail(whole.requests, wrap(own.requests), tail.requests);
                }
            } else {
                reveal_with_fuel(follows, 3);
                reveal_with_fuel(trace, 3);
                if !own.step.consumed() && rest.len() > 0 {
                    assert(tail.requests[0] is CallNext);
                    lemma_call_next_in_tail(whole.requests, wrap(own.requests), tail.requests);
                }
            }
        }
    } else {
        reveal_with_fuel(follows, 3);
        reveal_with_fuel(trace, 3);
        assert(begun.states =~= registry.states);
        assert(registry.with_state(state, idle(value, value.app_bar)).states =~= registry.states);
        if events.len() > 0 {
            assert(step->request is CallNext);
            assert(trace(step, events).requests[0] is CallNext);
        }
    }
}

/// A call that passes a message on is among the calls of an operation if it is among
/// its last calls.
proof fn lemma_call_next_in_tail(
    whole: Seq<SubclassRequest>,
    head: Seq<SubclassRequest>,
    tail: Seq<SubclassRequest>,
)
    requires
        whole == head + tail,
        exists|i: int| 0 <= i < tail.len() && #[trigger] tail[i] is CallNext,
    ensures
        exists|i: int| 0 <= i < whole.len() && #[trigger] whole[i] is CallNext,
{
    let i = choose|i: int| 0 <= i < tail.len() && #[trigger] tail[i] is CallNext;
    assert(whole[head.len() + i] == tail[i]);
}

proof fn lemma_unconsumed_is_passed_on(
    step: SubclassStep,
    events: Seq<Event>,
    state: usize,
    bar: AppBar,
    goal: FinishGoal,
)
    requires
        in_draining(step, state, bar, goal),
        goal is Message,
        !goal->consumed,
        follows(step, events),
        attached_in(events, state),
        trace(step, events).step is Replied,
    ensures
        exists|i: int|
            0 <= i < trace(step, events).requests.len() && #[trigger] trace(
                step,
                events,
            ).requests[i] is CallNext,
    decreases events.len(),
{
    if events.len() > 0 {
        let registry = events[0].registry;
        let next = registry.after(step->then, events[0].reply).1;
        let rest = events.drop_first();
        lemma_attached_in(events, state);
        assert(bar.after(step->then->Drain_operation, events[0].reply->AppBar_0).0 == bar);
        lemma_drained(registry, state, bar, goal);
        let tail = trace(next, rest).requests;
        if in_draining(next, state, bar, goal) {
            lemma_unconsumed_is_passed_on(next, rest, state, bar, goal);
        } else {
            assert(tail[0] is CallNext);
        }
        lemma_call_next_in_tail(trace(step, events).requests, seq![step->request], tail);
    }
}

/// While the AppBar's operation has not ended, the window waits for a call of it.
proof fn lemma_trace_ends_in_the_app_bar(
    state: usize,
    bar: AppBar,
    step: AppBarStep,
    goal: RunGoal,
    events: Seq<Event>,
)
    requires
        step is Call,
        follows(running(state, bar, step, goal), events),
        bar_end(bar, step, events).step is Call,
    ensures
        trace(running(state, bar, step, goal), events).step is Call,
        trace(running(state, bar, step, goal), events).step->request is AppBar,
    decreases events.len(),
{
    if events.len() > 0 {
        let (next_bar, next_step) = bar.after(step->then, events[0].reply->AppBar_0);
        let rest = events.drop_first();
        assert(bar_replies(bar, step, events).drop_first() =~= bar_replies(
            next_bar,
            next_step,
            rest,
        ));
        lemma_trace_ends_in_the_app_bar(state, next_bar, next_step, goal, rest);
    }
}

/// A step changes no more of the registry than it is about. While an AppBar runs an
/// operation or is removed, nothing changes; nor when the subclass has been installed,
/// a handle found or a message passed on. When an operation of an AppBar has ended,
/// what was pending for its state is taken, or its AppBar given back. When the subclass
/// could not be installed, the slot is released; when it has been removed, the slot is
/// released and the state detached.
pub proof fn law_steps_change_no_more_than_they_are_about(
    registry: Registry,
    operation: SubclassOperation,
    reply: SubclassReply,
)
    requires
        registry.wf(),
        operation.wf(registry.states.len()),
        operation.awaits(reply),
    ensures
        ({
            let (next, step) = registry.after(operation, reply);
            match operation {
                SubclassOperation::Install { hwnd, state, .. } => {
                    &&& reply->Install_0 is Ok ==> next == registry
                    &&& reply->Install_0 is Err ==> next == Registry {
                        slots: if registry.slots.contains_key(hwnd) && registry.slots[hwnd]
                            == state {
                            registry.slots.remove(hwnd)
                        } else {
                            registry.slots
                        },
                        ..registry
                    }
                },
                SubclassOperation::Handle { .. } => next == registry,
                SubclassOperation::Run { state, goal, .. } => {
                    &&& step is Call && step->then is Run ==> next == registry
                    &&& step is Registered && step->Registered_0 is Err ==> next == registry
                    &&& step is Call && step->then is Remove ==> next == registry
                    &&& step is Call && step->then is Drain ==> takes_pending(
                        registry,
                        next,
                        state,
                    )
                },
                SubclassOperation::Drain { state, .. } => {
                    &&& step is Call && step->then is Drain ==> next == registry || takes_pending(
                        registry,
                        next,
                        state,
                    )
                },
                SubclassOperation::Dispose { .. } => next == registry,
                SubclassOperation::Remove { hwnd, state, goal } => {
                    &&& reply->Remove_0 is Err && goal !is Rollback ==> next == registry
                    &&& reply->Remove_0 is Ok ==> next == Registry {
                        slots: if registry.slots.contains_key(hwnd) && registry.slots[hwnd]
                            == state {
                            registry.slots.remove(hwnd)
                        } else {
                            registry.slots
                        },
                        states: registry.states.update(
                            state as int,
                            SubclassState {
                                app_bar: None,
                                attached: false,
                                operation_in_progress: true,
                                ..registry.states[state as int]
                            },
                        ),
                        callback_messages: registry.callback_messages,
                    }
                },
                SubclassOperation::Release { goal, .. } => goal !is Rollback ==> next == registry,
                SubclassOperation::CallNext => next == registry,
            }
        }),
{
}

/// Whether `next` is `registry` with nothing pending for `state` any more.
pub open spec fn takes_pending(registry: Registry, next: Registry, state: usize) -> bool {
    next == registry.with_state(
        state,
        SubclassState {
            pending_reposition: false,
            pending_window_position_changed: false,
            ..registry.states[state as int]
        },
    )
}

/// A change of an AppBar, and the handling of a message by one, that have to make a
/// call take the AppBar from its state, and change nothing else before that call.
pub proof fn law_started_operations_take_the_app_bar(
    registry: Registry,
    state: usize,
    call: AppBarCall,
    hwnd: isize,
    message: WindowMessage,
)
    requires
        registry.wf(),
        state < registry.states.len(),
        registry.states[state as int].available(),
        registry.slots.contains_key(hwnd),
        registry.slots[hwnd] == state,
        message.message != WM_DESTROY,
    ensures
        ({
            let value = registry.states[state as int];
            let bar = value.app_bar->0;
            let taken = registry.with_state(
                state,
                SubclassState { app_bar: None, operation_in_progress: true, ..value },
            );
            &&& operation_of(bar, call).1 is Call ==> registry.changing(state, call).0 == taken
            &&& bar.handling(message.message, message.wparam) is Call ==> registry.receiving(
                hwnd,
                message,
            ).0 == taken
        }),
{
}

} // verus!
