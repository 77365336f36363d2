//! What holds of the timer's state machine, proved over the model.

use vstd::prelude::*;
use crate::error::TimerErrorView;
use crate::model::{span_between, Operation, TimerView, CLOCK_MAX};
use crate::state::{transition_allowed, TimerState};
use crate::subtimer::SubTimerView;

verus! {

/// A fresh timer is well formed.
pub proof fn law_fresh_is_wf()
    ensures
        TimerView::fresh().wf(),
{
}

/// No operation takes a well-formed timer to one that is not: whether the
/// call succeeds or fails, the timer after it is well formed.
pub proof fn law_operations_preserve_wf(timer: TimerView, op: Operation)
    requires
        timer.wf(),
    ensures
        timer.after(op).wf(),
{
    // Two operations leave a running timer whose open subtimer has to be
    // pointed out: a start, where any subtimer is open, and the reopening of
    // a subtimer, which is then open itself.
    if timer.apply(op) is Ok {
        match op {
            Operation::Start { .. } => {
                if timer.sub_timers.len() > 0 {
                    assert(!timer.sub_timers[0].finished);
                }
            },
            Operation::ResumeSubtimer { index } => {
                assert(!timer.after(op).sub_timers[index as int].finished);
            },
            _ => {},
        }
    }
}

/// Every timer that calls can produce from a fresh one is well formed,
/// whatever the calls, their order and their outcomes.
pub proof fn law_reachable_is_wf(ops: Seq<Operation>)
    ensures
        TimerView::fresh().after_all(ops).wf(),
    decreases ops.len(),
{
    if ops.len() > 0 {
        law_reachable_is_wf(ops.drop_last());
        law_operations_preserve_wf(TimerView::fresh().after_all(ops.drop_last()), ops.last());
    }
}

/// On a well-formed timer no operation misses a value that the state
/// promises: `NoneUnexpected` is never the answer.
pub proof fn law_wf_never_misses_a_value(timer: TimerView, op: Operation, now: nat, index: usize)
    requires
        timer.wf(),
    ensures
        timer.apply(op) != Err::<TimerView, TimerErrorView>(TimerErrorView::NoneUnexpected),
        timer.get_time(now) != Err::<nat, TimerErrorView>(TimerErrorView::NoneUnexpected),
        index < timer.sub_timers.len() ==> timer.sub_timers[index as int].get_time() != Err::<
            nat,
            TimerErrorView,
        >(TimerErrorView::NoneUnexpected),
{
    if index < timer.sub_timers.len() {
        assert(timer.sub_timers[index as int].wf());
    }
}

/// When each operation succeeds on a well-formed timer, by its state alone
/// but for the index of a subtimer and the range of the clock.
pub proof fn law_success_by_state(timer: TimerView, now: nat, index: usize)
    requires
        timer.wf(),
    ensures
        timer.get_time(now) is Ok <==> timer.state != TimerState::Init,
        timer.start(now) is Ok <==> timer.state == TimerState::Init,
        timer.pause(now) is Ok <==> timer.state == TimerState::Running,
        timer.resume(now) is Ok <==> timer.state == TimerState::Paused
            && timer.start_reference->Some_0 + span_between(timer.last_paused->Some_0, now)
            <= CLOCK_MAX,
        timer.finish(now) is Ok <==> timer.state == TimerState::Running || timer.state
            == TimerState::Paused,
        timer.reset() is Ok <==> timer.state == TimerState::Finished,
        timer.add_subtimer() is Ok <==> timer.state == TimerState::Init,
        timer.delete_subtimer(index) is Ok <==> timer.state == TimerState::Init && index
            < timer.sub_timers.len(),
        timer.get_subtimer(index) is Ok <==> index < timer.sub_timers.len(),
        timer.finish_subtimer(index, now) is Ok <==> timer.state == TimerState::Running && index
            < timer.sub_timers.len() && !timer.sub_timers[index as int].finished,
        timer.resume_subtimer(index) is Ok <==> timer.state == TimerState::Running && index
            < timer.sub_timers.len(),
{
}

/// A lifecycle operation that succeeds makes a move that the transition
/// table holds, and lands in the state it is named for.
pub proof fn law_lifecycle_follows_table(timer: TimerView, now: nat)
    ensures
        timer.start(now) matches Ok(next) ==> next.state == TimerState::Running
            && transition_allowed(timer.state, next.state),
        timer.pause(now) matches Ok(next) ==> next.state == TimerState::Paused
            && transition_allowed(timer.state, next.state),
        timer.resume(now) matches Ok(next) ==> next.state == TimerState::Running
            && transition_allowed(timer.state, next.state),
        timer.finish(now) matches Ok(next) ==> next.state == TimerState::Finished
            && transition_allowed(timer.state, next.state),
        timer.reset() matches Ok(next) ==> next.state == TimerState::Init && transition_allowed(
            timer.state,
            next.state,
        ),
{
}

/// On a fresh timer `pause`, `resume`, `reset` and `get_time` fail, whatever
/// the clock reads, and `start` succeeds.
pub proof fn law_fresh_timer_only_starts(now: nat)
    ensures
        TimerView::fresh().pause(now) is Err,
        TimerView::fresh().resume(now) is Err,
        TimerView::fresh().reset() is Err,
        TimerView::fresh().get_time(now) is Err,
        TimerView::fresh().start(now) is Ok,
{
}

/// After a successful `start`, `reset` and a second `start` fail and `pause`
/// succeeds.
pub proof fn law_started_timer_pauses(timer: TimerView, started_at: nat, now: nat)
    requires
        timer.start(started_at) is Ok,
    ensures
        timer.start(started_at)->Ok_0.reset() is Err,
        timer.start(started_at)->Ok_0.start(now) is Err,
        timer.start(started_at)->Ok_0.pause(now) is Ok,
{
}

/// After a successful `pause`, `resume` succeeds; after that `finish`
/// succeeds; after that `reset` succeeds and leaves a timer on which `start`
/// succeeds again.
///
/// The resume is taken at a reading for which the moved start reference stays
/// within the clock's range; readings taken in the order of the calls from a
/// monotonic clock always do (see [`law_clock_order_fits`]).
pub proof fn law_pause_resume_finish_reset(
    timer: TimerView,
    paused_at: nat,
    resumed_at: nat,
    finished_at: nat,
    restarted_at: nat,
)
    requires
        timer.wf(),
        timer.pause(paused_at) is Ok,
        timer.start_reference->Some_0 + span_between(paused_at, resumed_at) <= CLOCK_MAX,
    ensures
        timer.pause(paused_at)->Ok_0.resume(resumed_at) is Ok,
        timer.pause(paused_at)->Ok_0.resume(resumed_at)->Ok_0.finish(finished_at) is Ok,
        timer.pause(paused_at)->Ok_0.resume(resumed_at)->Ok_0.finish(finished_at)->Ok_0.reset()
            == Ok::<TimerView, TimerErrorView>(TimerView::fresh()),
        TimerView::fresh().start(restarted_at) is Ok,
{
}

/// Readings that a clock gives in the order start, pause, resume, and that
/// lie within its range, never push the start reference out of the range.
pub proof fn law_clock_order_fits(start: nat, paused_at: nat, resumed_at: nat)
    requires
        start <= paused_at <= resumed_at <= CLOCK_MAX,
    ensures
        start + span_between(paused_at, resumed_at) <= resumed_at <= CLOCK_MAX,
{
}

/// Elapsed time leaves the pauses out. A timer started at `started_at` shows
/// at `now` the time since the start; where it was paused at `paused_at` and
/// resumed at `resumed_at` in between, it shows that time less the length of
/// the pause.
pub proof fn law_pause_is_not_counted(
    timer: TimerView,
    started_at: nat,
    paused_at: nat,
    resumed_at: nat,
    now: nat,
)
    requires
        timer.state == TimerState::Init,
        started_at <= paused_at <= resumed_at <= now <= CLOCK_MAX,
    ensures
        timer.start(started_at)->Ok_0.get_time(now) == Ok::<nat, TimerErrorView>(
            (now - started_at) as nat,
        ),
        timer.start(started_at)->Ok_0.pause(paused_at)->Ok_0.resume(resumed_at) is Ok,
        timer.start(started_at)->Ok_0.pause(paused_at)->Ok_0.resume(resumed_at)->Ok_0.get_time(now)
            == Ok::<nat, TimerErrorView>(((now - started_at) - (resumed_at - paused_at)) as nat),
{
}

/// The readings of one pause: when the timer was paused and when it resumed.
pub struct PauseSpan {
    pub paused_at: nat,
    pub resumed_at: nat,
}

/// The reading at which the last of `pauses` ended, or `from` where there is none.
pub open spec fn end_of_pauses(from: nat, pauses: Seq<PauseSpan>) -> nat {
    if pauses.len() == 0 {
        from
    } else {
        pauses.last().resumed_at
    }
}

/// Whether `pauses` follow one another on the clock from the reading `from`
/// on: no pause begins before the one before it has ended, and none ends
/// before it begins.
pub open spec fn pauses_in_clock_order(from: nat, pauses: Seq<PauseSpan>) -> bool
    decreases pauses.len(),
{
    if pauses.len() == 0 {
        true
    } else {
        &&& pauses_in_clock_order(from, pauses.drop_last())
        &&& end_of_pauses(from, pauses.drop_last()) <= pauses.last().paused_at
        &&& pauses.last().paused_at <= pauses.last().resumed_at
    }
}

/// The lengths of `pauses`, added up.
pub open spec fn total_paused(pauses: Seq<PauseSpan>) -> nat
    decreases pauses.len(),
{
    if pauses.len() == 0 {
        0
    } else {
        total_paused(pauses.drop_last()) + span_between(
            pauses.last().paused_at,
            pauses.last().resumed_at,
        )
    }
}

/// The calls that make `pauses`: a `pause` and a `resume` for each, in order.
pub open spec fn pause_calls(pauses: Seq<PauseSpan>) -> Seq<Operation>
    decreases pauses.len(),
{
    if pauses.len() == 0 {
        Seq::empty()
    } else {
        pause_calls(pauses.drop_last()).push(
            Operation::Pause { now: pauses.last().paused_at },
        ).push(Operation::Resume { now: pauses.last().resumed_at })
    }
}

/// However many times a running timer is paused and resumed, it keeps
/// running with its start reference moved forward by the total length of the
/// pauses, so that at any later reading it shows the time since the start
/// less all the pauses. The subtimers are not touched.
pub proof fn law_elapsed_time_leaves_out_every_pause(
    timer: TimerView,
    started_at: nat,
    pauses: Seq<PauseSpan>,
    now: nat,
)
    requires
        timer.state == TimerState::Running,
        timer.start_reference == Some(started_at),
        pauses_in_clock_order(started_at, pauses),
        end_of_pauses(started_at, pauses) <= now <= CLOCK_MAX,
    ensures
        timer.after_all(pause_calls(pauses)).state == TimerState::Running,
        timer.after_all(pause_calls(pauses)).start_reference == Some(
            started_at + total_paused(pauses),
        ),
        timer.after_all(pause_calls(pauses)).sub_timers == timer.sub_timers,
        started_at + total_paused(pauses) <= end_of_pauses(started_at, pauses),
        timer.after_all(pause_calls(pauses)).get_time(now) == Ok::<nat, TimerErrorView>(
            (now - started_at - total_paused(pauses)) as nat,
        ),
    decreases pauses.len(),
{
    if pauses.len() > 0 {
        let earlier = pauses.drop_last();
        let last = pauses.last();
        law_elapsed_time_leaves_out_every_pause(timer, started_at, earlier, last.paused_at);

        let pause = Operation::Pause { now: last.paused_at };
        let resume = Operation::Resume { now: last.resumed_at };
        let up_to_pause = pause_calls(earlier).push(pause);
        let calls = pause_calls(pauses);
        assert(up_to_pause.drop_last() =~= pause_calls(earlier));
        assert(calls.drop_last() =~= up_to_pause);

        let before = timer.after_all(pause_calls(earlier));
        assert(timer.after_all(up_to_pause) == before.after(pause));
        assert(timer.after_all(calls) == before.after(pause).after(resume));
    }
}

/// A subtimer that has finished stays finished until it is opened again by
/// `resume_subtimer` or leaves the timer by `delete_subtimer` or `reset`.
pub proof fn law_finished_stays_finished(timer: TimerView, op: Operation, index: int)
    requires
        0 <= index < timer.sub_timers.len(),
        timer.sub_timers[index].finished,
        !(op is ResumeSubtimer),
        !(op is DeleteSubtimer),
        !(op is Reset),
    ensures
        index < timer.after(op).sub_timers.len(),
        timer.after(op).sub_timers[index].finished,
{
}

/// The indices handed out stay valid, and no subtimer changes its place,
/// under every operation but `delete_subtimer` and `reset`: the number of
/// subtimers stays the same, or grows by one at the end with `add_subtimer`.
pub proof fn law_indices_are_stable(timer: TimerView, op: Operation)
    requires
        !(op is DeleteSubtimer),
        !(op is Reset),
    ensures
        timer.after(op).sub_timers.len() == timer.sub_timers.len() + (if op is AddSubtimer
            && timer.apply(op) is Ok {
            1nat
        } else {
            0nat
        }),
        op is Start || op is Pause || op is Resume || op is AddSubtimer ==> forall|i: int|
            0 <= i < timer.sub_timers.len() ==> #[trigger] timer.after(op).sub_timers[i]
                == timer.sub_timers[i],
{
}

/// Finishing an open subtimer of a running timer records the elapsed time
/// under its index. Where another subtimer is still open the timer keeps
/// running and the other subtimers stay as they were; where it was the last
/// one open the timer finishes, and every subtimer carries the final time.
pub proof fn law_timer_finishes_with_its_last_subtimer(timer: TimerView, index: usize, now: nat)
    requires
        timer.state == TimerState::Running,
        timer.start_reference is Some,
        index < timer.sub_timers.len(),
        !timer.sub_timers[index as int].finished,
    ensures
        timer.finish_subtimer(index, now) matches Ok(next) && ({
            let time = span_between(timer.start_reference->Some_0, now);
            let others_done = forall|j: int|
                0 <= j < timer.sub_timers.len() && j != index ==> (
                #[trigger] timer.sub_timers[j]).finished;
            &&& next.sub_timers.len() == timer.sub_timers.len()
            &&& next.sub_timers[index as int] == SubTimerView::stamped(time)
            &&& others_done ==> next.state == TimerState::Finished && forall|j: int|
                0 <= j < next.sub_timers.len() ==> #[trigger] next.sub_timers[j]
                    == SubTimerView::stamped(time)
            &&& !others_done ==> next.state == TimerState::Running && forall|j: int|
                0 <= j < next.sub_timers.len() && j != index ==> #[trigger] next.sub_timers[j]
                    == timer.sub_timers[j]
        }),
{
    let time = span_between(timer.start_reference->Some_0, now);
    let marked = timer.sub_timers.update(index as int, SubTimerView::stamped(time));
    let others_done = forall|j: int|
        0 <= j < timer.sub_timers.len() && j != index ==> (#[trigger] timer.sub_timers[j]).finished;
    if others_done {
        assert forall|j: int| 0 <= j < marked.len() implies (#[trigger] marked[j]).finished by {
            if j != index {
                assert(timer.sub_timers[j].finished);
            }
        }
    } else {
        let j = choose|j: int|
            0 <= j < timer.sub_timers.len() && j != index && !(
            #[trigger] timer.sub_timers[j]).finished;
        assert(!marked[j].finished);
    }
}

/// After a reset no index of the earlier round is valid: the subtimers are
/// gone, and every operation that takes an index is refused.
pub proof fn law_reset_drops_subtimers(timer: TimerView, index: usize, now: nat)
    requires
        timer.reset() is Ok,
    ensures
        timer.reset()->Ok_0.sub_timers.len() == 0,
        timer.reset()->Ok_0.get_subtimer(index) == Err::<SubTimerView, TimerErrorView>(
            TimerErrorView::InvalidSubtimerIndex(index),
        ),
        timer.reset()->Ok_0.delete_subtimer(index) == Err::<TimerView, TimerErrorView>(
            TimerErrorView::InvalidSubtimerIndex(index),
        ),
        timer.reset()->Ok_0.finish_subtimer(index, now) is Err,
        timer.reset()->Ok_0.resume_subtimer(index) is Err,
{
}

/// `delete_subtimer` fails on every timer that is not in `Init`. In `Init` it
/// succeeds for a registered index: the subtimers before it keep their
/// indices, and those behind it move down by one.
pub proof fn law_delete_subtimer_shifts(timer: TimerView, index: usize)
    ensures
        timer.state != TimerState::Init ==> timer.delete_subtimer(index) is Err,
        timer.state == TimerState::Init && index < timer.sub_timers.len() ==> ({
            &&& timer.delete_subtimer(index) matches Ok(next)
            &&& next.state == TimerState::Init
            &&& next.sub_timers.len() == timer.sub_timers.len() - 1
            &&& forall|j: int|
                0 <= j < index ==> #[trigger] next.sub_timers[j] == timer.sub_timers[j]
            &&& forall|j: int|
                index <= j < next.sub_timers.len() ==> #[trigger] next.sub_timers[j]
                    == timer.sub_timers[j + 1]
        }),
{
}

/// A round that ends with a successful `reset` leaves the timer equal to a
/// fresh one, whatever was called before. What is called afterwards therefore
/// goes as it goes on a fresh timer.
pub proof fn law_reset_round_trip(timer: TimerView, round: Seq<Operation>, later: Seq<Operation>)
    requires
        round.len() > 0,
        round.last() == Operation::Reset,
        timer.after_all(round.drop_last()).reset() is Ok,
    ensures
        timer.after_all(round) == TimerView::fresh(),
        timer.after_all(round).after_all(later) == TimerView::fresh().after_all(later),
{
}

} // verus!
