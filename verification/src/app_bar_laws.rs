//! What holds of whole operations of an [`AppBar`], whatever the desktop replies.

use vstd::prelude::*;

use crate::app_bar::{
    rejected, valid_size, AddGoal, AppBar, AppBarOperation, AppBarStep, PositionGoal, RemoveGoal,
    Target,
};
use crate::error::AppBarError;
use crate::geometry::{strip, strip_fits};
use crate::platform::{AppBarData, Reply, Request};
use crate::types::{Edge, Rect};
use crate::win32::{
    notification_code, ABM_NEW, ABM_QUERYPOS, ABM_REMOVE, ABM_SETPOS, ABN_POSCHANGED, SW_HIDE,
    SW_SHOWNA,
};

verus! {

/// How far an operation has come: the AppBar, the step that it is at, and the
/// calls that it has asked for, the one of that step included.
pub struct Run {
    pub bar: AppBar,
    pub step: AppBarStep,
    pub requests: Seq<Request>,
}

/// Whether `replies` are replies that an operation at `step` can get, one after
/// the other, before it ends.
pub open spec fn follows(bar: AppBar, step: AppBarStep, replies: Seq<Reply>) -> bool
    decreases replies.len(),
{
    replies.len() == 0 || {
        &&& step is Call
        &&& step->then.awaits(replies[0])
        &&& {
            let (next_bar, next_step) = bar.after(step->then, replies[0]);
            follows(next_bar, next_step, replies.drop_first())
        }
    }
}

/// How far an operation at `step` comes with `replies`.
pub open spec fn run(bar: AppBar, step: AppBarStep, replies: Seq<Reply>) -> Run
    decreases replies.len(),
{
    match step {
        AppBarStep::Call { request, then } => {
            if replies.len() == 0 {
                Run { bar, step, requests: seq![request] }
            } else {
                let (next_bar, next_step) = bar.after(then, replies[0]);
                let rest = run(next_bar, next_step, replies.drop_first());
                Run { requests: seq![request] + rest.requests, ..rest }
            }
        },
        _ => Run { bar, step, requests: Seq::empty() },
    }
}

/// What holds at a step and is kept by every reply holds however far an
/// operation comes.
proof fn lemma_run_keeps(
    inv: spec_fn(AppBar, AppBarStep) -> bool,
    bar: AppBar,
    step: AppBarStep,
    replies: Seq<Reply>,
)
    requires
        follows(bar, step, replies),
        inv(bar, step),
        forall|b: AppBar, s: AppBarStep, reply: Reply|
            #![trigger inv(b, s), s->then.awaits(reply)]
            inv(b, s) && s is Call && s->then.awaits(reply) ==> inv(
                b.after(s->then, reply).0,
                b.after(s->then, reply).1,
            ),
    ensures
        inv(run(bar, step, replies).bar, run(bar, step, replies).step),
    decreases replies.len(),
{
    if replies.len() > 0 {
        let (next_bar, next_step) = bar.after(step->then, replies[0]);
        lemma_run_keeps(inv, next_bar, next_step, replies.drop_first());
    }
}

/// The configuration of an AppBar without its state of registration.
pub open spec fn same_configuration(one: AppBar, other: AppBar) -> bool {
    one == AppBar { registered: one.registered, ..other }
}

/// However far a change of thickness comes, the AppBar is as it was, unless the
/// change ends with success; then it has the new thickness, and nothing else
/// has changed. It succeeds at once on an AppBar that is not registered, and is
/// refused for a thickness that an AppBar cannot have.
pub proof fn law_failed_resize_keeps_the_previous_size(
    bar: AppBar,
    size: u32,
    replies: Seq<Reply>,
)
    requires
        follows(bar.setting_size(size).0, bar.setting_size(size).1, replies),
    ensures
        ({
            let start = bar.setting_size(size);
            let end = run(start.0, start.1, replies);
            match end.step {
                AppBarStep::Call { .. } => end.bar == bar && valid_size(size) && bar.registered,
                AppBarStep::Finished(Err(error)) => {
                    &&& end.bar == bar
                    &&& !valid_size(size) ==> error is InvalidSize
                },
                AppBarStep::Finished(Ok(())) => {
                    &&& valid_size(size)
                    &&& end.bar == AppBar { size: size as i32, ..bar }
                },
                AppBarStep::Handled(_) => false,
            }
        }),
{
    let target = Target { size: size as i32, ..bar.target() };
    let inv = |b: AppBar, s: AppBarStep|
        match s {
            AppBarStep::Call { then, .. } => b == bar && bar.registered && valid_size(size)
                && (then matches AppBarOperation::Position { target: t, goal, .. } && t == target
                && goal is SetSize),
            AppBarStep::Finished(Err(error)) => b == bar && (!valid_size(size)
                ==> error is InvalidSize),
            AppBarStep::Finished(Ok(())) => valid_size(size) && b == (AppBar {
                size: size as i32,
                ..bar
            }),
            AppBarStep::Handled(_) => false,
        };
    let start = bar.setting_size(size);
    lemma_run_keeps(inv, start.0, start.1, replies);
}

/// However far a change of edge comes, the AppBar is as it was, unless the
/// change ends with success; then it has the new edge, and nothing else has
/// changed.
pub proof fn law_failed_edge_change_keeps_the_previous_edge(
    bar: AppBar,
    edge: Edge,
    replies: Seq<Reply>,
)
    requires
        follows(bar.setting_edge(edge).0, bar.setting_edge(edge).1, replies),
    ensures
        ({
            let start = bar.setting_edge(edge);
            let end = run(start.0, start.1, replies);
            match end.step {
                AppBarStep::Call { .. } => end.bar == bar && bar.registered,
                AppBarStep::Finished(Err(_)) => end.bar == bar && bar.registered,
                AppBarStep::Finished(Ok(())) => end.bar == AppBar { edge, ..bar },
                AppBarStep::Handled(_) => false,
            }
        }),
{
    let target = Target { edge, ..bar.target() };
    let inv = |b: AppBar, s: AppBarStep|
        match s {
            AppBarStep::Call { then, .. } => b == bar && bar.registered && (
            then matches AppBarOperation::Position { target: t, goal, .. } && t == target
                && goal is SetEdge),
            AppBarStep::Finished(Err(_)) => b == bar && bar.registered,
            AppBarStep::Finished(Ok(())) => b == (AppBar { edge, ..bar }),
            AppBarStep::Handled(_) => false,
        };
    let start = bar.setting_edge(edge);
    lemma_run_keeps(inv, start.0, start.1, replies);
}

/// However far a move to another monitor comes, the AppBar is as it was, unless
/// the move ends with success; then it has the new monitor index, and nothing
/// else has changed. Registered or not, a move succeeds only to a monitor that
/// was found.
pub proof fn law_failed_monitor_change_keeps_the_previous_monitor(
    bar: AppBar,
    monitor_index: usize,
    replies: Seq<Reply>,
)
    requires
        follows(bar, bar.setting_monitor_index(monitor_index), replies),
    ensures
        ({
            let end = run(bar, bar.setting_monitor_index(monitor_index), replies);
            match end.step {
                AppBarStep::Call { .. } => end.bar == bar,
                AppBarStep::Finished(Err(_)) => end.bar == bar,
                AppBarStep::Finished(Ok(())) => {
                    &&& end.bar == AppBar { monitor_index, ..bar }
                    &&& end.requests[0] == (Request::MonitorRect { index: monitor_index })
                    &&& replies[0] matches Reply::MonitorRect(Ok(_))
                },
                AppBarStep::Handled(_) => false,
            }
        }),
{
    let target = Target { monitor_index, ..bar.target() };
    let inv = |b: AppBar, s: AppBarStep|
        match s {
            AppBarStep::Call { then, .. } => b == bar && match then {
                AppBarOperation::CheckMonitor { monitor_index: m, goal } => m == monitor_index
                    && goal is SetMonitorIndex,
                AppBarOperation::Position { target: t, goal, .. } => t == target
                    && goal is SetMonitorIndex,
                _ => false,
            },
            AppBarStep::Finished(Err(_)) => b == bar,
            AppBarStep::Finished(Ok(())) => b == (AppBar { monitor_index, ..bar }),
            AppBarStep::Handled(_) => false,
        };
    let step = bar.setting_monitor_index(monitor_index);
    lemma_run_keeps(inv, bar, step, replies);
    reveal_with_fuel(follows, 2);
    reveal_with_fuel(run, 2);
}

/// Handling a window message never changes the AppBar. It consumes its own
/// callback message and no other; an error comes only from a repositioning that
/// the Shell's notification asked for.
pub proof fn law_messages_leave_the_app_bar_as_it_is(
    bar: AppBar,
    message: u32,
    wparam: usize,
    replies: Seq<Reply>,
)
    requires
        follows(bar, bar.handling(message, wparam), replies),
    ensures
        ({
            let end = run(bar, bar.handling(message, wparam), replies);
            &&& end.bar == bar
            &&& end.step !is Finished
            &&& end.step matches AppBarStep::Handled(Ok(consumed)) ==> consumed == (message
                == bar.callback_message)
            &&& end.step matches AppBarStep::Handled(Err(_)) ==> {
                &&& message == bar.callback_message
                &&& notification_code(wparam) == ABN_POSCHANGED
                &&& bar.registered
            }
        }),
{
    let reposition = message == bar.callback_message && notification_code(wparam)
        == ABN_POSCHANGED && bar.registered;
    let inv = |b: AppBar, s: AppBarStep|
        b == bar && match s {
            AppBarStep::Call { then, .. } => match then {
                AppBarOperation::Position { goal, .. } => goal is Message && reposition,
                AppBarOperation::Notify => message != bar.callback_message,
                _ => false,
            },
            AppBarStep::Finished(_) => false,
            AppBarStep::Handled(Ok(consumed)) => consumed == (message == bar.callback_message),
            AppBarStep::Handled(Err(_)) => reposition,
        };
    lemma_run_keeps(inv, bar, bar.handling(message, wparam), replies);
}

/// An operation asks for no more calls than its first step announces, and
/// never for more than eight.
pub proof fn law_operations_are_bounded(bar: AppBar, step: AppBarStep, replies: Seq<Reply>)
    requires
        bar.wf(),
        step.wf(),
        follows(bar, step, replies),
    ensures
        run(bar, step, replies).requests.len() <= step.calls_left(),
        step.calls_left() <= 8,
        run(bar, step, replies).bar.wf(),
        run(bar, step, replies).step.wf(),
    decreases replies.len(),
{
    if replies.len() > 0 {
        let (next_bar, next_step) = bar.after(step->then, replies[0]);
        lemma_after_is_wf(bar, step->then, replies[0]);
        law_operations_are_bounded(next_bar, next_step, replies.drop_first());
    }
}

/// A step follows an operation with fewer calls left.
pub(crate) proof fn lemma_after_is_wf(bar: AppBar, operation: AppBarOperation, reply: Reply)
    requires
        bar.wf(),
        operation.wf(),
        operation.awaits(reply),
    ensures
        bar.after(operation, reply).0.wf(),
        bar.after(operation, reply).1.wf(),
        bar.after(operation, reply).1.calls_left() < operation.calls_left(),
{
}

/// Every reply of the kind that the call of a step gets is one that the
/// operation of that step expects, and no other reply is.
pub proof fn law_steps_expect_the_reply_to_their_call(step: AppBarStep, reply: Reply)
    requires
        step.wf(),
        step is Call,
    ensures
        step->request.answered_by(reply) <==> step->then.expects(reply),
{
}

/// An operation can go on with every reply to the call of its step, unless the
/// rectangle in it leaves no room for the strip that is to be cut from it.
pub proof fn law_replies_with_room_are_accepted(step: AppBarStep, reply: Reply)
    requires
        step.wf(),
        step is Call,
    ensures
        step->then.awaits(reply) <==> {
            &&& step->request.answered_by(reply)
            &&& step->then matches AppBarOperation::Position { target, stage, .. } ==> {
                &&& stage is Monitor && reply->MonitorRect_0 is Ok ==> strip_fits(
                    reply->MonitorRect_0->Ok_0,
                    target.edge,
                    target.size as int,
                )
                &&& stage is Query ==> strip_fits(
                    reply->AppBarMessage_data.rect,
                    target.edge,
                    target.size as int,
                )
            }
        },
{
}

/// Whether the Shell holds a registration after `reply` to `request`, when
/// before it did or did not as `held` says.
pub open spec fn held_after(held: bool, request: Request, reply: Reply) -> bool {
    if reply matches Reply::AppBarMessage { result, .. } && result != 0 {
        if request.sends(ABM_NEW) {
            true
        } else if request.sends(ABM_REMOVE) {
            false
        } else {
            held
        }
    } else {
        held
    }
}

/// Whether the Shell holds a registration after each of `replies` to
/// `requests`.
pub open spec fn held_after_all(held: bool, requests: Seq<Request>, replies: Seq<Reply>) -> bool
    decreases replies.len(),
{
    if replies.len() == 0 || requests.len() == 0 {
        held
    } else {
        held_after_all(
            held_after(held, requests[0], replies[0]),
            requests.drop_first(),
            replies.drop_first(),
        )
    }
}

/// At every point of every operation the AppBar's state of registration is that
/// of the Shell: it becomes registered when the Shell accepts it, unregistered
/// when the Shell accepts its removal, and changes at no other time.
pub proof fn law_registration_state_is_that_of_the_shell(
    bar: AppBar,
    step: AppBarStep,
    replies: Seq<Reply>,
)
    requires
        bar.wf(),
        step.wf(),
        follows(bar, step, replies),
    ensures
        ({
            let end = run(bar, step, replies);
            end.bar.registered == held_after_all(bar.registered, end.requests, replies)
        }),
    decreases replies.len(),
{
    if replies.len() > 0 {
        let (next_bar, next_step) = bar.after(step->then, replies[0]);
        lemma_after_is_wf(bar, step->then, replies[0]);
        law_registration_state_is_that_of_the_shell(next_bar, next_step, replies.drop_first());
        let end = run(bar, step, replies);
        let rest = run(next_bar, next_step, replies.drop_first());
        assert(end.requests.drop_first() =~= rest.requests);
        assert(next_bar.registered == held_after(bar.registered, step->request, replies[0]));
    }
}

/// Whether the last two of `requests` ask the Shell to remove the AppBar.
pub open spec fn ends_with_two_removals(requests: Seq<Request>) -> bool {
    &&& requests.len() >= 2
    &&& requests[requests.len() - 1].sends(ABM_REMOVE)
    &&& requests[requests.len() - 2].sends(ABM_REMOVE)
}

/// A registration that ends with success leaves the AppBar registered and
/// otherwise as it was configured. One that ends with an error leaves it
/// unregistered, unless the Shell rejected its removal twice. A monitor that is
/// not found ends it with that error before the Shell hears of the AppBar.
pub proof fn law_failed_registration_is_rolled_back(bar: AppBar, replies: Seq<Reply>)
    requires
        !bar.registered,
        follows(bar, bar.registering(), replies),
    ensures
        ({
            let end = run(bar, bar.registering(), replies);
            &&& same_configuration(end.bar, bar)
            &&& end.step !is Handled
            &&& end.step matches AppBarStep::Finished(Ok(())) ==> end.bar.registered
            &&& end.step matches AppBarStep::Finished(Err(_)) ==> (end.bar.registered
                ==> ends_with_two_removals(end.requests))
            &&& end.requests[0] == (Request::MonitorRect { index: bar.monitor_index })
            &&& replies.len() > 0 ==> (replies[0] matches Reply::MonitorRect(Err(error)) ==> {
                &&& end.bar == bar
                &&& end.step == AppBarStep::Finished(Err(error))
                &&& end.requests.len() == 1
            })
        }),
{
    lemma_registration(bar, bar, bar.registering(), replies);
    reveal_with_fuel(follows, 2);
    reveal_with_fuel(run, 2);
}

/// Whether a registration of `bar` comes by `now` and `step`.
spec fn in_registration(bar: AppBar, now: AppBar, step: AppBarStep) -> bool {
    &&& same_configuration(now, bar)
    &&& match step {
        AppBarStep::Call { request, then } => then.waits_on(request) && match then {
            AppBarOperation::CheckMonitor { goal, .. } => goal is Register && !now.registered,
            AppBarOperation::New { goal } => goal is Register && !now.registered,
            AppBarOperation::Position { goal, .. } => goal == PositionGoal::Add(AddGoal::Register)
                && now.registered,
            AppBarOperation::Remove { goal } => now.registered && (
            goal matches RemoveGoal::Rollback { goal: AddGoal::Register, .. }),
            _ => false,
        },
        AppBarStep::Finished(Ok(())) => now.registered,
        AppBarStep::Finished(Err(_)) => !now.registered,
        AppBarStep::Handled(_) => false,
    }
}

proof fn lemma_registration(bar: AppBar, now: AppBar, step: AppBarStep, replies: Seq<Reply>)
    requires
        in_registration(bar, now, step),
        follows(now, step, replies),
    ensures
        ({
            let end = run(now, step, replies);
            &&& same_configuration(end.bar, bar)
            &&& end.step !is Handled
            &&& end.step matches AppBarStep::Finished(Ok(())) ==> end.bar.registered
            &&& end.step matches AppBarStep::Finished(Err(_)) ==> (end.bar.registered
                ==> ends_with_two_removals(end.requests))
        }),
    decreases replies.len(),
{
    if replies.len() > 0 {
        let (next_bar, next_step) = now.after(step->then, replies[0]);
        if step->then is Remove {
            reveal_with_fuel(follows, 3);
            reveal_with_fuel(run, 3);
        } else {
            lemma_registration(bar, next_bar, next_step, replies.drop_first());
        }
    }
}

/// Showing an AppBar ends with success only when it is registered and its
/// window has been shown without being activated. It can fail only for an
/// AppBar that was not registered. The configuration stays as it was.
pub proof fn law_show_registers_and_shows(bar: AppBar, replies: Seq<Reply>)
    requires
        follows(bar, bar.starting_show(), replies),
    ensures
        ({
            let end = run(bar, bar.starting_show(), replies);
            &&& same_configuration(end.bar, bar)
            &&& end.step !is Handled
            &&& end.step matches AppBarStep::Finished(Ok(())) ==> {
                &&& end.bar.registered
                &&& end.requests.last() == (Request::ShowWindow {
                    hwnd: bar.hwnd,
                    command: SW_SHOWNA,
                })
            }
            &&& end.step matches AppBarStep::Finished(Err(_)) ==> !bar.registered
        }),
{
    lemma_show(bar, bar, bar.starting_show(), replies);
}

/// Whether showing `bar` comes by `now` and `step`.
spec fn in_show(bar: AppBar, now: AppBar, step: AppBarStep) -> bool {
    &&& same_configuration(now, bar)
    &&& match step {
        AppBarStep::Call { request, then } => match then {
            AppBarOperation::New { goal } => goal is Show && !bar.registered,
            AppBarOperation::Position { goal, .. } => goal == PositionGoal::Add(AddGoal::Show)
                && now.registered && !bar.registered,
            AppBarOperation::Remove { goal } => !bar.registered && (
            goal matches RemoveGoal::Rollback { goal: AddGoal::Show, .. }),
            AppBarOperation::Show => now.registered && request == (Request::ShowWindow {
                hwnd: bar.hwnd,
                command: SW_SHOWNA,
            }),
            _ => false,
        },
        AppBarStep::Finished(Ok(())) => now.registered,
        AppBarStep::Finished(Err(_)) => !bar.registered,
        AppBarStep::Handled(_) => false,
    }
}

proof fn lemma_show(bar: AppBar, now: AppBar, step: AppBarStep, replies: Seq<Reply>)
    requires
        in_show(bar, now, step),
        step is Call,
        follows(now, step, replies),
    ensures
        ({
            let end = run(now, step, replies);
            &&& in_show(bar, end.bar, end.step)
            &&& end.requests.len() > 0
            &&& end.step matches AppBarStep::Finished(Ok(())) ==> end.requests.last() == (
            Request::ShowWindow { hwnd: bar.hwnd, command: SW_SHOWNA })
        }),
    decreases replies.len(),
{
    if replies.len() > 0 {
        let (next_bar, next_step) = now.after(step->then, replies[0]);
        if next_step is Call {
            lemma_show(bar, next_bar, next_step, replies.drop_first());
        } else {
            reveal_with_fuel(follows, 2);
            reveal_with_fuel(run, 2);
        }
    }
}

/// Hiding an AppBar ends with success only when it is not registered any more
/// and its window has been hidden. It fails exactly when the Shell rejects the
/// removal; then the AppBar is as it was and its window is left alone.
pub proof fn law_hide_unregisters_and_hides(bar: AppBar, replies: Seq<Reply>)
    requires
        follows(bar, bar.starting_hide(), replies),
    ensures
        ({
            let end = run(bar, bar.starting_hide(), replies);
            match end.step {
                AppBarStep::Call { .. } => same_configuration(end.bar, bar),
                AppBarStep::Finished(Ok(())) => {
                    &&& end.bar == AppBar { registered: false, ..bar }
                    &&& end.requests.last() == (Request::ShowWindow {
                        hwnd: bar.hwnd,
                        command: SW_HIDE,
                    })
                },
                AppBarStep::Finished(Err(error)) => {
                    &&& bar.registered
                    &&& end.bar == bar
                    &&& error == rejected("removal")
                    &&& end.requests.len() == 1
                    &&& end.requests[0].sends(ABM_REMOVE)
                },
                AppBarStep::Handled(_) => false,
            }
        }),
{
    reveal_with_fuel(follows, 3);
    reveal_with_fuel(run, 3);
}

/// Showing an AppBar again after hiding it gives back the AppBar, registered.
pub proof fn law_show_undoes_hide(bar: AppBar, hiding: Seq<Reply>, showing: Seq<Reply>)
    requires
        follows(bar, bar.starting_hide(), hiding),
        run(bar, bar.starting_hide(), hiding).step == AppBarStep::Finished(Ok(())),
        ({
            let hidden = run(bar, bar.starting_hide(), hiding).bar;
            &&& follows(hidden, hidden.starting_show(), showing)
            &&& run(hidden, hidden.starting_show(), showing).step == AppBarStep::Finished(Ok(()))
        }),
    ensures
        ({
            let hidden = run(bar, bar.starting_hide(), hiding).bar;
            run(hidden, hidden.starting_show(), showing).bar == AppBar { registered: true, ..bar }
        }),
{
    law_hide_unregisters_and_hides(bar, hiding);
    let hidden = run(bar, bar.starting_hide(), hiding).bar;
    law_show_registers_and_shows(hidden, showing);
}

/// Removing an AppBar asks the Shell exactly once. If the Shell accepts, the
/// AppBar is not registered any more; if it rejects, the AppBar stays as it is
/// and the rejection is reported. Nothing else of the AppBar changes.
pub proof fn law_remove_asks_the_shell_once(bar: AppBar, replies: Seq<Reply>)
    requires
        follows(bar, bar.removing(), replies),
    ensures
        ({
            let end = run(bar, bar.removing(), replies);
            &&& end.requests == seq![
                Request::AppBarMessage {
                    message: ABM_REMOVE,
                    data: bar.message_data(bar.edge),
                },
            ]
            &&& match end.step {
                AppBarStep::Call { .. } => end.bar == bar && replies.len() == 0,
                AppBarStep::Finished(Ok(())) => {
                    &&& end.bar == AppBar { registered: false, ..bar }
                    &&& replies[0]->AppBarMessage_result != 0
                },
                AppBarStep::Finished(Err(error)) => {
                    &&& end.bar == bar
                    &&& error == rejected("removal")
                    &&& replies[0]->AppBarMessage_result == 0
                },
                AppBarStep::Handled(_) => false,
            }
        }),
{
    reveal_with_fuel(follows, 3);
    reveal_with_fuel(run, 3);
}

/// Unregistering a registered AppBar asks the Shell once to remove it, and a
/// second time only if the Shell rejects the first. It ends with success
/// exactly when the first is accepted, and an unregistered AppBar needs none.
pub proof fn law_unregister_removes_once(bar: AppBar, replies: Seq<Reply>)
    requires
        follows(bar, bar.unregistering(), replies),
    ensures
        ({
            let end = run(bar, bar.unregistering(), replies);
            &&& forall|i: int|
                0 <= i < end.requests.len() ==> #[trigger] end.requests[i]
                    == (Request::AppBarMessage {
                    message: ABM_REMOVE,
                    data: bar.message_data(bar.edge),
                })
            &&& match end.step {
                AppBarStep::Call { .. } => end.bar == bar,
                AppBarStep::Finished(Ok(())) => {
                    &&& end.bar == AppBar { registered: false, ..bar }
                    &&& end.requests.len() == if bar.registered {
                        1int
                    } else {
                        0int
                    }
                },
                AppBarStep::Finished(Err(error)) => {
                    &&& bar.registered
                    &&& error == rejected("removal")
                    &&& end.requests.len() == 2
                    &&& same_configuration(end.bar, bar)
                },
                AppBarStep::Handled(_) => false,
            }
        }),
{
    reveal_with_fuel(follows, 3);
    reveal_with_fuel(run, 3);
}

/// Putting an AppBar somewhere asks for the monitor's bounds, proposes to the
/// Shell the strip along the edge of that monitor, takes the strip of the same
/// thickness along the edge of what the Shell made of the proposal, and moves
/// the window to what the Shell made of that; the outcome is that of the move.
pub proof fn law_positioning_sequence(
    bar: AppBar,
    target: Target,
    goal: PositionGoal,
    monitor: Rect,
    queried: Reply,
    placed: Reply,
    moved: Result<(), AppBarError>,
)
    requires
        goal !is Add,
        queried is AppBarMessage,
        placed is AppBarMessage,
        strip_fits(monitor, target.edge, target.size as int),
        strip_fits(queried->AppBarMessage_data.rect, target.edge, target.size as int),
    ensures
        ({
            let size = target.size as int;
            let replies = seq![
                Reply::MonitorRect(Ok(monitor)),
                queried,
                placed,
                Reply::SetWindowPos(moved),
            ];
            let step = bar.positioning(target, goal);
            let end = run(bar, step, replies);
            &&& follows(bar, step, replies)
            &&& (end.bar, end.step) == bar.positioned(target, goal, moved)
            &&& end.step !is Call
            &&& end.requests == seq![
                Request::MonitorRect { index: target.monitor_index },
                Request::AppBarMessage {
                    message: ABM_QUERYPOS,
                    data: AppBarData {
                        rect: strip(monitor, target.edge, size),
                        ..bar.message_data(target.edge)
                    },
                },
                Request::AppBarMessage {
                    message: ABM_SETPOS,
                    data: AppBarData {
                        rect: strip(queried->AppBarMessage_data.rect, target.edge, size),
                        ..queried->AppBarMessage_data
                    },
                },
                Request::SetWindowPos {
                    hwnd: bar.hwnd,
                    rect: placed->AppBarMessage_data.rect,
                },
            ]
        }),
{
    let replies = seq![
        Reply::MonitorRect(Ok(monitor)),
        queried,
        placed,
        Reply::SetWindowPos(moved),
    ];
    let after_monitor = replies.drop_first();
    let after_query = after_monitor.drop_first();
    let after_place = after_query.drop_first();
    let after_move = after_place.drop_first();
    assert(after_monitor[0] == queried);
    assert(after_query[0] == placed);
    assert(after_place[0] == Reply::SetWindowPos(moved));
    assert(after_move.len() == 0);
    reveal_with_fuel(follows, 5);
    reveal_with_fuel(run, 5);
}

} // verus!
