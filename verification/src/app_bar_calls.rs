//! Which calls the operations of an [`AppBar`] make, and how they end.
//!
//! Each law speaks of every run of an operation, finished or not, and gives the
//! calls made so far, the AppBar and the outcome in terms of what the operation
//! was asked for and of the replies.

use vstd::prelude::*;

use crate::app_bar::{AddGoal, AppBar, AppBarOperation, AppBarStep, PositionGoal};
use crate::app_bar_laws::{follows, run, Run};
use crate::error::AppBarError;
use crate::geometry::{across, side, strip, thickness};
use crate::platform::{AppBarData, Reply, Request};
use crate::types::{Edge, Rect};
use crate::win32::{
    ABM_NEW, ABM_QUERYPOS, ABM_REMOVE, ABM_SETPOS, ABM_WINDOWPOSCHANGED, SW_HIDE, SW_SHOWNA,
    WM_WINDOWPOSCHANGED,
};

verus! {

/// The call that sends `message` to the Shell for the window of `bar`, about
/// `edge` and `rect`.
pub open spec fn shell_call(bar: AppBar, message: u32, edge: Edge, rect: Rect) -> Request {
    Request::AppBarMessage {
        message,
        data: AppBarData {
            hwnd: bar.hwnd,
            callback_message: bar.callback_message,
            edge: edge.code(),
            rect,
            lparam: 0,
        },
    }
}

/// The call that sends `message` to the Shell for the window of `bar`, about no
/// rectangle.
pub open spec fn plain_call(bar: AppBar, message: u32) -> Request {
    shell_call(bar, message, bar.edge, Rect { left: 0, top: 0, right: 0, bottom: 0 })
}

/// The rectangle that a reply of the Shell leaves.
pub open spec fn rect_in(reply: Reply) -> Rect {
    reply->AppBarMessage_data.rect
}

/// Whether the Shell accepted what it was asked for.
pub open spec fn accepted(reply: Reply) -> bool {
    reply->AppBarMessage_result != 0
}

/// The number of replies with which putting an AppBar somewhere has ended: one if
/// the monitor is not found, or else one for each of its four calls.
pub open spec fn placing_length(replies: Seq<Reply>) -> nat {
    if replies.len() > 0 && replies[0]->MonitorRect_0 is Err {
        1
    } else {
        4
    }
}

/// How putting an AppBar somewhere has ended: as finding the monitor did, if that
/// failed, or else as moving the window did.
pub open spec fn placing_result(replies: Seq<Reply>) -> Result<(), AppBarError> {
    match replies[0]->MonitorRect_0 {
        Err(error) => Err(error),
        Ok(_) => replies[3]->SetWindowPos_0,
    }
}

/// The calls made so far to put `bar` where `to` is configured to be: the bounds of
/// the monitor of `to` are asked for; the strip of the thickness of `to` along its
/// edge of those bounds is proposed to the Shell; the strip of that thickness along
/// that edge of what the Shell answers is taken; and the window is moved to what
/// the Shell leaves of that.
pub open spec fn placing_calls(bar: AppBar, to: AppBar, replies: Seq<Reply>) -> Seq<Request> {
    let size = to.size as int;
    let all = seq![
        Request::MonitorRect { index: to.monitor_index },
        shell_call(
            bar,
            ABM_QUERYPOS,
            to.edge,
            strip(replies[0]->MonitorRect_0->Ok_0, to.edge, size),
        ),
        Request::AppBarMessage {
            message: ABM_SETPOS,
            data: AppBarData {
                rect: strip(rect_in(replies[1]), to.edge, size),
                ..replies[1]->AppBarMessage_data
            },
        },
        Request::SetWindowPos { hwnd: bar.hwnd, rect: rect_in(replies[2]) },
    ];
    let ends = placing_length(replies);
    all.take(
        if replies.len() < ends {
            replies.len() as int + 1
        } else {
            ends as int
        },
    )
}

/// What is left of a run after its first `count` calls.
pub open spec fn rest_of(end: Run, count: nat) -> Run {
    Run { requests: end.requests.skip(count as int), ..end }
}

/// Whether a run with `replies` has done what moving a registered AppBar from the
/// configuration `from` to the configuration `to` takes: it makes the calls that
/// put the AppBar there and no other, ends as those do, and leaves the AppBar
/// configured as `to` if they succeed and as `from` otherwise.
pub open spec fn moves(from: AppBar, to: AppBar, replies: Seq<Reply>, end: Run) -> bool {
    &&& end.requests == placing_calls(from, to, replies)
    &&& if replies.len() < placing_length(replies) {
        end.step is Call && end.bar == from
    } else {
        match placing_result(replies) {
            Ok(()) => end.bar == to && end.step == AppBarStep::Finished(Ok(())),
            Err(error) => end.bar == from && end.step == AppBarStep::Finished(Err(error)),
        }
    }
}

/// Putting an AppBar somewhere makes its calls, and what comes then is what comes of
/// its result.
proof fn lemma_placing(bar: AppBar, to: AppBar, goal: PositionGoal, replies: Seq<Reply>)
    requires
        follows(bar, bar.positioning(to.target(), goal), replies),
    ensures
        ({
            let end = run(bar, bar.positioning(to.target(), goal), replies);
            let ends = placing_length(replies);
            if replies.len() < ends {
                &&& end.bar == bar
                &&& end.step is Call
                &&& end.requests == placing_calls(bar, to, replies)
            } else {
                let (next, step) = bar.positioned(to.target(), goal, placing_result(replies));
                let rest = run(next, step, replies.skip(ends as int));
                &&& follows(next, step, replies.skip(ends as int))
                &&& end.bar == rest.bar
                &&& end.step == rest.step
                &&& end.requests == placing_calls(bar, to, replies) + rest.requests
            }
        }),
{
    let step = bar.positioning(to.target(), goal);
    let q1 = replies.drop_first();
    let q2 = q1.drop_first();
    let q3 = q2.drop_first();
    let q4 = q3.drop_first();
    let end = run(bar, step, replies);
    let calls = placing_calls(bar, to, replies);
    if replies.len() == 0 {
        assert(end.requests =~= calls);
    } else if replies[0]->MonitorRect_0 is Err {
        assert(replies.skip(1) =~= q1);
        let (next, after) = bar.after(step->then, replies[0]);
        assert(end.requests =~= calls + run(next, after, q1).requests);
    } else {
        let s1 = bar.after(step->then, replies[0]).1;
        if replies.len() == 1 {
            assert(run(bar, s1, q1).requests =~= seq![s1->request]);
            assert(end.requests =~= calls);
        } else {
            assert(q1[0] == replies[1]);
            assert(follows(bar, s1, q1));
            let s2 = bar.after(s1->then, q1[0]).1;
            if replies.len() == 2 {
                assert(run(bar, s2, q2).requests =~= seq![s2->request]);
                assert(run(bar, s1, q1).requests =~= seq![s1->request, s2->request]);
                assert(end.requests =~= calls);
            } else {
                assert(q2[0] == replies[2]);
                assert(follows(bar, s2, q2));
                let s3 = bar.after(s2->then, q2[0]).1;
                if replies.len() == 3 {
                    assert(run(bar, s3, q3).requests =~= seq![s3->request]);
                    assert(run(bar, s2, q2).requests =~= seq![s2->request, s3->request]);
                    assert(run(bar, s1, q1).requests =~= seq![
                        s1->request,
                        s2->request,
                        s3->request,
                    ]);
                    assert(end.requests =~= calls);
                } else {
                    assert(q3[0] == replies[3]);
                    assert(follows(bar, s3, q3));
                    let (next, s4) = bar.after(s3->then, q3[0]);
                    let rest = run(next, s4, q4);
                    assert(replies.skip(4) =~= q4);
                    assert(run(bar, s3, q3).requests =~= seq![s3->request] + rest.requests);
                    assert(run(bar, s2, q2).requests =~= seq![s2->request, s3->request]
                        + rest.requests);
                    assert(run(bar, s1, q1).requests =~= seq![
                        s1->request,
                        s2->request,
                        s3->request,
                    ] + rest.requests);
                    assert(end.requests =~= calls + rest.requests);
                }
            }
        }
    }
}

/// A positioning that no other call follows is a move.
proof fn lemma_move(from: AppBar, to: AppBar, goal: PositionGoal, replies: Seq<Reply>)
    requires
        follows(from, from.positioning(to.target(), goal), replies),
        goal is SetSize || goal is SetEdge || goal is SetMonitorIndex || goal is Message,
    ensures
        ({
            let end = run(from, from.positioning(to.target(), goal), replies);
            &&& end.requests == placing_calls(from, to, replies)
            &&& if replies.len() < placing_length(replies) {
                end.step is Call && end.bar == from
            } else {
                (end.bar, end.step) == from.positioned(to.target(), goal, placing_result(replies))
            }
        }),
{
    lemma_placing(from, to, goal, replies);
    let ends = placing_length(replies);
    if replies.len() >= ends {
        let (next, step) = from.positioned(to.target(), goal, placing_result(replies));
        let rest = replies.skip(ends as int);
        assert(rest.len() == 0);
        assert(placing_calls(from, to, replies) + Seq::<Request>::empty() =~= placing_calls(
            from,
            to,
            replies,
        ));
    }
}

/// Changing the thickness of a registered AppBar puts it where it was, with the new
/// thickness. An AppBar that is not registered just takes the thickness on. One
/// that is zero, or too large for a coordinate, is refused. Neither makes a call.
pub proof fn law_resizing_places_the_app_bar(bar: AppBar, size: u32, replies: Seq<Reply>)
    requires
        follows(bar.setting_size(size).0, bar.setting_size(size).1, replies),
    ensures
        ({
            let start = bar.setting_size(size);
            let end = run(start.0, start.1, replies);
            let resized = AppBar { size: size as i32, ..bar };
            if size == 0 || size > 0x7fff_ffff {
                &&& end.bar == bar
                &&& end.step == AppBarStep::Finished(Err(AppBarError::InvalidSize))
                &&& end.requests == Seq::<Request>::empty()
            } else if !bar.registered {
                &&& end.bar == resized
                &&& end.step == AppBarStep::Finished(Ok(()))
                &&& end.requests == Seq::<Request>::empty()
            } else {
                moves(bar, resized, replies, end)
            }
        }),
{
    if 0 < size <= 0x7fff_ffff && bar.registered {
        let resized = AppBar { size: size as i32, ..bar };
        lemma_move(bar, resized, PositionGoal::SetSize, replies);
    }
}

/// Changing the edge of a registered AppBar puts it at that edge of its monitor, as
/// thick as it was. An AppBar that is not registered takes the edge on without a
/// call.
pub proof fn law_changing_the_edge_places_the_app_bar(
    bar: AppBar,
    edge: Edge,
    replies: Seq<Reply>,
)
    requires
        follows(bar.setting_edge(edge).0, bar.setting_edge(edge).1, replies),
    ensures
        ({
            let start = bar.setting_edge(edge);
            let end = run(start.0, start.1, replies);
            let turned = AppBar { edge, ..bar };
            if !bar.registered {
                &&& end.bar == turned
                &&& end.step == AppBarStep::Finished(Ok(()))
                &&& end.requests == Seq::<Request>::empty()
            } else {
                moves(bar, turned, replies, end)
            }
        }),
{
    if bar.registered {
        lemma_move(bar, AppBar { edge, ..bar }, PositionGoal::SetEdge, replies);
    }
}

/// Moving an AppBar to another monitor first asks for that monitor, and fails if it
/// is not found. Then a registered AppBar is put on that monitor, at the edge and
/// of the thickness that it has; one that is not registered takes the monitor on
/// without another call.
pub proof fn law_changing_the_monitor_places_the_app_bar(
    bar: AppBar,
    monitor_index: usize,
    replies: Seq<Reply>,
)
    requires
        follows(bar, bar.setting_monitor_index(monitor_index), replies),
    ensures
        ({
            let end = run(bar, bar.setting_monitor_index(monitor_index), replies);
            let moved = AppBar { monitor_index, ..bar };
            &&& end.requests.len() > 0
            &&& end.requests[0] == (Request::MonitorRect { index: monitor_index })
            &&& if replies.len() == 0 {
                end.bar == bar && end.step is Call && end.requests.len() == 1
            } else {
                match replies[0]->MonitorRect_0 {
                    Err(error) => {
                        &&& end.bar == bar
                        &&& end.step == AppBarStep::Finished(Err(error))
                        &&& end.requests.len() == 1
                    },
                    Ok(_) => if bar.registered {
                        moves(bar, moved, replies.skip(1), rest_of(end, 1))
                    } else {
                        &&& end.bar == moved
                        &&& end.step == AppBarStep::Finished(Ok(()))
                        &&& end.requests.len() == 1
                    },
                }
            }
        }),
{
    let step = bar.setting_monitor_index(monitor_index);
    let end = run(bar, step, replies);
    if replies.len() > 0 {
        let (next, after) = bar.after(step->then, replies[0]);
        assert(replies.drop_first() =~= replies.skip(1));
        assert(end.requests.skip(1) =~= run(next, after, replies.skip(1)).requests);
        if replies[0]->MonitorRect_0 is Ok && bar.registered {
            let moved = AppBar { monitor_index, ..bar };
            assert(after == bar.positioning(moved.target(), PositionGoal::SetMonitorIndex));
            lemma_move(bar, moved, PositionGoal::SetMonitorIndex, replies.skip(1));
        }
    }
}

/// Whether a run with `replies` has done what adding `bar` to the Shell takes. The
/// Shell is asked to add it. If the Shell rejects that, the AppBar stays as it was.
/// If the Shell accepts, the AppBar is registered and put where it is configured
/// to be. If that succeeds, the window is shown when the AppBar is being shown. If
/// it fails, the Shell is asked to remove the AppBar, and asked again if it rejects
/// that and the AppBar is being registered, for then it is given up; the failure
/// is reported, and the AppBar stays registered only if no removal was accepted.
pub open spec fn adds(bar: AppBar, goal: AddGoal, replies: Seq<Reply>, end: Run) -> bool {
    let added = AppBar { registered: true, ..bar };
    let placing = replies.skip(1);
    let ends = placing_length(placing);
    let then = placing.skip(ends as int);
    let calls = placing_calls(bar, bar, placing);
    let remove = plain_call(bar, ABM_REMOVE);
    &&& end.requests.len() > 0
    &&& end.requests[0] == plain_call(bar, ABM_NEW)
    &&& if replies.len() == 0 {
        end.bar == bar && end.step is Call && end.requests.len() == 1
    } else if !accepted(replies[0]) {
        &&& end.bar == bar
        &&& end.step == AppBarStep::Finished(
            Err(AppBarError::ShellOperationFailed { operation: "registration" }),
        )
        &&& end.requests.len() == 1
    } else if placing.len() < ends {
        end.bar == added && end.step is Call && end.requests.skip(1) == calls
    } else {
        match placing_result(placing) {
            Ok(()) => {
                &&& end.bar == added
                &&& match goal {
                    AddGoal::Register => {
                        &&& end.requests.skip(1) == calls
                        &&& end.step == AppBarStep::Finished(Ok(()))
                    },
                    AddGoal::Show => {
                        &&& end.requests.skip(1) == calls + seq![
                            Request::ShowWindow { hwnd: bar.hwnd, command: SW_SHOWNA },
                        ]
                        &&& if then.len() == 0 {
                            end.step is Call
                        } else {
                            end.step == AppBarStep::Finished(Ok(()))
                        }
                    },
                }
            },
            Err(error) => if then.len() == 0 {
                &&& end.bar == added
                &&& end.step is Call
                &&& end.requests.skip(1) == calls + seq![remove]
            } else if accepted(then[0]) {
                &&& end.bar == bar
                &&& end.step == AppBarStep::Finished(Err(error))
                &&& end.requests.skip(1) == calls + seq![remove]
            } else if goal is Show {
                &&& end.bar == added
                &&& end.step == AppBarStep::Finished(Err(error))
                &&& end.requests.skip(1) == calls + seq![remove]
            } else {
                &&& end.requests.skip(1) == calls + seq![remove, remove]
                &&& if then.len() == 1 {
                    end.bar == added && end.step is Call
                } else {
                    &&& end.bar == AppBar { registered: !accepted(then[1]), ..bar }
                    &&& end.step == AppBarStep::Finished(Err(error))
                }
            },
        }
    }
}

proof fn lemma_adding(bar: AppBar, goal: AddGoal, step: AppBarStep, replies: Seq<Reply>)
    requires
        !bar.registered,
        step is Call,
        step->request == plain_call(bar, ABM_NEW),
        step->then == (AppBarOperation::New { goal }),
        follows(bar, step, replies),
    ensures
        adds(bar, goal, replies, run(bar, step, replies)),
{
    let end = run(bar, step, replies);
    let added = AppBar { registered: true, ..bar };
    if replies.len() > 0 {
        let placing = replies.skip(1);
        let (next, after) = bar.after(step->then, replies[0]);
        assert(replies.drop_first() =~= placing);
        assert(end.requests.skip(1) =~= run(next, after, placing).requests);
        if accepted(replies[0]) {
            assert(added.target() == bar.target());
            lemma_placing(added, bar, PositionGoal::Add(goal), placing);
            let ends = placing_length(placing);
            assert(placing_calls(added, bar, placing) == placing_calls(bar, bar, placing));
            if placing.len() >= ends {
                let then = placing.skip(ends as int);
                let (b, s) = added.positioned(
                    bar.target(),
                    PositionGoal::Add(goal),
                    placing_result(placing),
                );
                reveal_with_fuel(follows, 3);
                reveal_with_fuel(run, 3);
                let calls = placing_calls(bar, bar, placing);
                let remove = plain_call(bar, ABM_REMOVE);
                assert(calls + Seq::<Request>::empty() =~= calls);
                if then.len() > 0 {
                    assert(seq![s->request] + Seq::<Request>::empty() =~= seq![s->request]);
                }
                if then.len() > 1 {
                    assert(then.drop_first()[0] == then[1]);
                }
                if placing_result(placing) is Err && then.len() > 0 && !accepted(then[0])
                    && goal is Register {
                    assert(run(b, s, then).requests =~= seq![remove, remove]);
                }
            }
        }
    }
}

/// Registering an AppBar first asks for the monitor that it is to be on, and fails
/// if that is not found. Then the AppBar is added to the Shell, which puts it on
/// that monitor, at the edge and of the thickness asked for.
pub proof fn law_registering_places_the_app_bar(bar: AppBar, replies: Seq<Reply>)
    requires
        !bar.registered,
        follows(bar, bar.registering(), replies),
    ensures
        ({
            let end = run(bar, bar.registering(), replies);
            &&& end.requests.len() > 0
            &&& end.requests[0] == (Request::MonitorRect { index: bar.monitor_index })
            &&& if replies.len() == 0 {
                end.bar == bar && end.step is Call && end.requests.len() == 1
            } else {
                match replies[0]->MonitorRect_0 {
                    Err(error) => {
                        &&& end.bar == bar
                        &&& end.step == AppBarStep::Finished(Err(error))
                        &&& end.requests.len() == 1
                    },
                    Ok(_) => adds(bar, AddGoal::Register, replies.skip(1), rest_of(end, 1)),
                }
            }
        }),
{
    let step = bar.registering();
    let end = run(bar, step, replies);
    if replies.len() > 0 {
        let (next, after) = bar.after(step->then, replies[0]);
        assert(replies.drop_first() =~= replies.skip(1));
        assert(end.requests.skip(1) =~= run(next, after, replies.skip(1)).requests);
        if replies[0]->MonitorRect_0 is Ok {
            lemma_adding(bar, AddGoal::Register, after, replies.skip(1));
        }
    }
}

/// The AppBar for which a registration starts is configured as asked for, and not
/// registered.
pub proof fn law_registration_starts_as_asked_for(
    hwnd: isize,
    monitor_index: usize,
    edge: Edge,
    size: u32,
    callback_message: u32,
)
    requires
        0 < size <= 0x7fff_ffff,
    ensures
        ({
            let bar = AppBar::unregistered(hwnd, monitor_index, edge, size, callback_message);
            &&& bar.hwnd == hwnd
            &&& bar.monitor_index == monitor_index
            &&& bar.edge == edge
            &&& bar.size == size
            &&& bar.callback_message == callback_message
            &&& !bar.registered
        }),
{
}

/// Showing an AppBar that is registered shows its window, and that is all. One that
/// is not is added to the Shell first, which puts it where it is configured to be.
pub proof fn law_showing_places_the_app_bar(bar: AppBar, replies: Seq<Reply>)
    requires
        follows(bar, bar.starting_show(), replies),
    ensures
        ({
            let end = run(bar, bar.starting_show(), replies);
            if bar.registered {
                &&& end.bar == bar
                &&& end.requests == seq![
                    Request::ShowWindow { hwnd: bar.hwnd, command: SW_SHOWNA },
                ]
                &&& if replies.len() == 0 {
                    end.step is Call
                } else {
                    end.step == AppBarStep::Finished(Ok(()))
                }
            } else {
                adds(bar, AddGoal::Show, replies, end)
            }
        }),
{
    reveal_with_fuel(follows, 2);
    reveal_with_fuel(run, 2);
    if !bar.registered {
        lemma_adding(bar, AddGoal::Show, bar.starting_show(), replies);
    }
}

/// Hiding an AppBar that is registered asks the Shell to remove it, and if the Shell
/// accepts, hides its window. If the Shell rejects the removal, the AppBar stays as
/// it is. The window of an AppBar that is not registered is just hidden.
pub proof fn law_hiding_removes_the_app_bar(bar: AppBar, replies: Seq<Reply>)
    requires
        follows(bar, bar.starting_hide(), replies),
    ensures
        ({
            let end = run(bar, bar.starting_hide(), replies);
            let hidden = AppBar { registered: false, ..bar };
            let conceal = Request::ShowWindow { hwnd: bar.hwnd, command: SW_HIDE };
            let remove = plain_call(bar, ABM_REMOVE);
            if !bar.registered {
                &&& end.bar == bar
                &&& end.requests == seq![conceal]
                &&& if replies.len() == 0 {
                    end.step is Call
                } else {
                    end.step == AppBarStep::Finished(Ok(()))
                }
            } else if replies.len() == 0 {
                end.bar == bar && end.step is Call && end.requests == seq![remove]
            } else if !accepted(replies[0]) {
                &&& end.bar == bar
                &&& end.requests == seq![remove]
                &&& end.step == AppBarStep::Finished(
                    Err(AppBarError::ShellOperationFailed { operation: "removal" }),
                )
            } else {
                &&& end.bar == hidden
                &&& end.requests == seq![remove, conceal]
                &&& if replies.len() == 1 {
                    end.step is Call
                } else {
                    end.step == AppBarStep::Finished(Ok(()))
                }
            }
        }),
{
    reveal_with_fuel(follows, 3);
    reveal_with_fuel(run, 3);
    let end = run(bar, bar.starting_hide(), replies);
    if !bar.registered {
        assert(end.requests =~= seq![Request::ShowWindow { hwnd: bar.hwnd, command: SW_HIDE }]);
    } else if replies.len() == 0 || !accepted(replies[0]) {
        assert(end.requests =~= seq![plain_call(bar, ABM_REMOVE)]);
    } else {
        assert(end.requests =~= seq![
            plain_call(bar, ABM_REMOVE),
            Request::ShowWindow { hwnd: bar.hwnd, command: SW_HIDE },
        ]);
    }
}

/// Removing an AppBar asks the Shell once, whether or not the AppBar is registered.
/// If the Shell accepts, the AppBar is not registered any more; otherwise it stays
/// as it is.
pub proof fn law_removing_asks_the_shell(bar: AppBar, replies: Seq<Reply>)
    requires
        follows(bar, bar.removing(), replies),
    ensures
        ({
            let end = run(bar, bar.removing(), replies);
            &&& end.requests == seq![plain_call(bar, ABM_REMOVE)]
            &&& if replies.len() == 0 {
                end.bar == bar && end.step is Call
            } else if accepted(replies[0]) {
                &&& end.bar == AppBar { registered: false, ..bar }
                &&& end.step == AppBarStep::Finished(Ok(()))
            } else {
                &&& end.bar == bar
                &&& end.step == AppBarStep::Finished(
                    Err(AppBarError::ShellOperationFailed { operation: "removal" }),
                )
            }
        }),
{
    reveal_with_fuel(follows, 3);
    reveal_with_fuel(run, 3);
}

/// Whether a run with `replies` has given `bar` up: the Shell is asked to remove it,
/// and asked again if it rejects that and holds the AppBar. The outcome is that of
/// the first removal.
pub open spec fn gives_up(bar: AppBar, replies: Seq<Reply>, end: Run) -> bool {
    let remove = plain_call(bar, ABM_REMOVE);
    if replies.len() == 0 {
        end.bar == bar && end.step is Call && end.requests == seq![remove]
    } else if accepted(replies[0]) {
        &&& end.bar == AppBar { registered: false, ..bar }
        &&& end.step == AppBarStep::Finished(Ok(()))
        &&& end.requests == seq![remove]
    } else {
        let refused = AppBarStep::Finished(
            Err(AppBarError::ShellOperationFailed { operation: "removal" }),
        );
        if !bar.registered {
            end.bar == bar && end.step == refused && end.requests == seq![remove]
        } else {
            &&& end.requests == seq![remove, remove]
            &&& if replies.len() == 1 {
                end.bar == bar && end.step is Call
            } else {
                &&& end.bar == AppBar { registered: !accepted(replies[1]), ..bar }
                &&& end.step == refused
            }
        }
    }
}

/// Removing and dropping an AppBar gives it up.
pub proof fn law_giving_up_removes_the_app_bar(bar: AppBar, replies: Seq<Reply>)
    requires
        follows(bar, bar.giving_up(), replies),
    ensures
        gives_up(bar, replies, run(bar, bar.giving_up(), replies)),
{
    reveal_with_fuel(follows, 3);
    reveal_with_fuel(run, 3);
    let end = run(bar, bar.giving_up(), replies);
    let remove = plain_call(bar, ABM_REMOVE);
    if replies.len() == 0 || accepted(replies[0]) || !bar.registered {
        assert(end.requests =~= seq![remove]);
    } else {
        if replies.len() > 1 {
            assert(replies.drop_first()[0] == replies[1]);
        }
        assert(end.requests =~= seq![remove, remove]);
    }
}

/// Unregistering gives a registered AppBar up, and has nothing to do for one that is
/// not registered.
pub proof fn law_unregistering_gives_the_app_bar_up(bar: AppBar, replies: Seq<Reply>)
    requires
        follows(bar, bar.unregistering(), replies),
    ensures
        ({
            let end = run(bar, bar.unregistering(), replies);
            if bar.registered {
                gives_up(bar, replies, end)
            } else {
                &&& end.bar == bar
                &&& end.step == AppBarStep::Finished(Ok(()))
                &&& end.requests == Seq::<Request>::empty()
            }
        }),
{
    if bar.registered {
        law_giving_up_removes_the_app_bar(bar, replies);
    }
}

/// Dropping a registered AppBar asks the Shell once to remove it, and dropping
/// another asks nothing. The outcome is that of what went before, whatever the
/// Shell replies.
pub proof fn law_dropping_removes_the_app_bar(
    bar: AppBar,
    result: Result<(), AppBarError>,
    replies: Seq<Reply>,
)
    requires
        follows(bar, bar.dropping(result), replies),
    ensures
        ({
            let end = run(bar, bar.dropping(result), replies);
            if !bar.registered {
                &&& end.bar == bar
                &&& end.step == AppBarStep::Finished(result)
                &&& end.requests == Seq::<Request>::empty()
            } else {
                &&& end.requests == seq![plain_call(bar, ABM_REMOVE)]
                &&& if replies.len() == 0 {
                    end.bar == bar && end.step is Call
                } else {
                    &&& end.bar == AppBar { registered: !accepted(replies[0]), ..bar }
                    &&& end.step == AppBarStep::Finished(result)
                }
            }
        }),
{
    reveal_with_fuel(follows, 3);
    reveal_with_fuel(run, 3);
}

/// A registered AppBar that is notified of a changed position is put where it is
/// configured to be, and the notification is consumed if that succeeds. Other
/// callback messages are consumed without a call. When the window of a registered
/// AppBar has moved, the Shell is told. No message but the callback message is
/// consumed, no other makes a call, and none changes the AppBar.
pub proof fn law_messages_are_acted_on(
    bar: AppBar,
    message: u32,
    wparam: usize,
    replies: Seq<Reply>,
)
    requires
        follows(bar, bar.handling(message, wparam), replies),
    ensures
        ({
            let end = run(bar, bar.handling(message, wparam), replies);
            &&& end.bar == bar
            &&& if message == bar.callback_message {
                if bar.registered && wparam as int % 0x1_0000_0000 == 1 {
                    &&& end.requests == placing_calls(bar, bar, replies)
                    &&& if replies.len() < placing_length(replies) {
                        end.step is Call
                    } else {
                        match placing_result(replies) {
                            Ok(()) => end.step == AppBarStep::Handled(Ok(true)),
                            Err(error) => end.step == AppBarStep::Handled(Err(error)),
                        }
                    }
                } else {
                    &&& end.step == AppBarStep::Handled(Ok(true))
                    &&& end.requests == Seq::<Request>::empty()
                }
            } else if bar.registered && message == WM_WINDOWPOSCHANGED {
                &&& end.requests == seq![plain_call(bar, ABM_WINDOWPOSCHANGED)]
                &&& if replies.len() == 0 {
                    end.step is Call
                } else {
                    end.step == AppBarStep::Handled(Ok(false))
                }
            } else {
                &&& end.step == AppBarStep::Handled(Ok(false))
                &&& end.requests == Seq::<Request>::empty()
            }
        }),
{
    if message == bar.callback_message {
        if bar.registered && wparam as int % 0x1_0000_0000 == 1 {
            lemma_move(bar, bar, PositionGoal::Message, replies);
        }
    } else {
        reveal_with_fuel(follows, 2);
        reveal_with_fuel(run, 2);
    }
}

/// Whatever an AppBar is put somewhere for, the rectangle that it takes has the
/// thickness asked for along the edge asked for, and the sides that the Shell
/// answered but for the one across from that edge. The rectangle that it proposes
/// before has that thickness too, and all other sides of the monitor.
pub proof fn law_placed_app_bars_have_their_thickness(
    bar: AppBar,
    to: AppBar,
    goal: PositionGoal,
    replies: Seq<Reply>,
)
    requires
        replies.len() >= 2,
        replies[0]->MonitorRect_0 is Ok,
        follows(bar, bar.positioning(to.target(), goal), replies),
    ensures
        ({
            let end = run(bar, bar.positioning(to.target(), goal), replies);
            let proposed = end.requests[1]->AppBarMessage_data;
            let taken = end.requests[2]->AppBarMessage_data;
            &&& end.requests.len() >= 3
            &&& end.requests[0] == (Request::MonitorRect { index: to.monitor_index })
            &&& end.requests[1].sends(ABM_QUERYPOS)
            &&& end.requests[2].sends(ABM_SETPOS)
            &&& proposed.hwnd == bar.hwnd
            &&& proposed.edge == to.edge.code()
            &&& thickness(proposed.rect, to.edge) == to.size
            &&& thickness(taken.rect, to.edge) == to.size
            &&& forall|other: Edge|
                other != across(to.edge) ==> #[trigger] side(proposed.rect, other) == side(
                    replies[0]->MonitorRect_0->Ok_0,
                    other,
                ) && #[trigger] side(taken.rect, other) == side(rect_in(replies[1]), other)
            &&& replies.len() >= 3 ==> end.requests.len() >= 4 && end.requests[3] == (
            Request::SetWindowPos { hwnd: bar.hwnd, rect: rect_in(replies[2]) })
        }),
{
    lemma_placing(bar, to, goal, replies);
    reveal_with_fuel(follows, 3);
    let s1 = bar.after(bar.positioning(to.target(), goal)->then, replies[0]).1;
    assert(replies.drop_first()[0] == replies[1]);
    assert(s1->then.awaits(replies[1]));
}

} // verus!
