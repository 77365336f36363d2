//! The timer as a mathematical state machine.
//!
//! A [`TimerView`] is what a timer holds, with clock readings as natural
//! numbers of nanoseconds. Each operation of the timer is a function here from
//! the view before, and the clock reading where one is taken, to the view
//! after or to the error reported. The executable timer is proved against
//! these functions, and the laws of the library are stated over them.

use vstd::prelude::*;
use crate::error::TimerErrorView;
use crate::state::{transition_allowed, TimerState};
use crate::subtimer::SubTimerView;

verus! {

/// The largest reading that the clock can give, in nanoseconds.
pub const CLOCK_MAX: u128 = u128::MAX;

/// The time from `earlier` to `later`, and zero where `later` is not later.
pub open spec fn span_between(earlier: nat, later: nat) -> nat {
    if later >= earlier {
        (later - earlier) as nat
    } else {
        0
    }
}

/// Whether every subtimer of `subs` has finished.
pub open spec fn all_finished(subs: Seq<SubTimerView>) -> bool {
    forall|i: int| 0 <= i < subs.len() ==> (#[trigger] subs[i]).finished
}

/// Whether no subtimer of `subs` has finished.
pub open spec fn none_finished(subs: Seq<SubTimerView>) -> bool {
    forall|i: int| 0 <= i < subs.len() ==> !(#[trigger] subs[i]).finished
}

/// `count` subtimers, each finished at `time`.
pub open spec fn all_stamped(count: nat, time: nat) -> Seq<SubTimerView> {
    Seq::new(count, |i: int| SubTimerView::stamped(time))
}

/// One call of an operation that can change a timer, with the clock reading
/// where the operation takes one.
pub enum Operation {
    Start { now: nat },
    Pause { now: nat },
    Resume { now: nat },
    Finish { now: nat },
    Reset,
    AddSubtimer,
    FinishSubtimer { index: usize, now: nat },
    DeleteSubtimer { index: usize },
    ResumeSubtimer { index: usize },
}

/// The mathematical content of a timer.
pub struct TimerView {
    /// The lifecycle state.
    pub state: TimerState,
    /// The reading from which elapsed time counts. A resume moves it forward
    /// by the length of the pause, so that elapsed time is always the current
    /// reading minus this one.
    pub start_reference: Option<nat>,
    /// The reading taken at the latest pause. It is read by the next resume
    /// and keeps its value afterwards.
    pub last_paused: Option<nat>,
    /// The subtimers in the order of their registration.
    pub sub_timers: Seq<SubTimerView>,
}

impl TimerView {
    /// A timer as it is constructed: in `Init`, with no readings and no subtimers.
    pub open spec fn fresh() -> TimerView {
        TimerView {
            state: TimerState::Init,
            start_reference: None,
            last_paused: None,
            sub_timers: Seq::empty(),
        }
    }

    /// The consistency of a timer's parts with its state.
    ///
    /// The start reference is absent exactly in `Init`. A paused timer has the
    /// reading of its pause, and a timer in `Init` has none. Each subtimer
    /// carries a time exactly when it has finished. In `Init` no subtimer has
    /// finished; in `Finished` all have, with one and the same time; and a
    /// timer that is running or paused with subtimers has one that is still open.
    pub open spec fn wf(self) -> bool {
        &&& self.start_reference is None <==> self.state == TimerState::Init
        &&& self.state == TimerState::Paused ==> self.last_paused is Some
        &&& self.state == TimerState::Init ==> self.last_paused is None
        &&& forall|i: int| 0 <= i < self.sub_timers.len() ==> (#[trigger] self.sub_timers[i]).wf()
        &&& self.state == TimerState::Init ==> none_finished(self.sub_timers)
        &&& self.state == TimerState::Finished ==> all_finished(self.sub_timers)
        &&& self.state == TimerState::Finished ==> forall|i: int, j: int|
            0 <= i < self.sub_timers.len() && 0 <= j < self.sub_timers.len() ==> (
            #[trigger] self.sub_timers[i]).time == (#[trigger] self.sub_timers[j]).time
        &&& (self.state == TimerState::Running || self.state == TimerState::Paused)
            && self.sub_timers.len() > 0 ==> !all_finished(self.sub_timers)
    }

    /// The state after a move to `target`, or the error for a move that the
    /// transition table does not hold.
    pub open spec fn next_state(self, target: TimerState) -> Result<TimerState, TimerErrorView> {
        if transition_allowed(self.state, target) {
            Ok(target)
        } else {
            Err(TimerErrorView::IllegalStateTransition { current: self.state, next: target })
        }
    }

    /// Accepts the indices below the number of subtimers.
    pub open spec fn check_subtimer_index(self, index: usize) -> Result<(), TimerErrorView> {
        if index < self.sub_timers.len() {
            Ok(())
        } else {
            Err(TimerErrorView::InvalidSubtimerIndex(index))
        }
    }

    /// The elapsed time at the reading `now`: `now` minus the start reference.
    /// A paused timer answers in the same way, so the time of the pause so far
    /// is counted until the resume takes it out.
    pub open spec fn get_time(self, now: nat) -> Result<nat, TimerErrorView> {
        if self.state == TimerState::Init {
            Err(TimerErrorView::Unsupported { state: self.state, operation: "get time"@ })
        } else {
            match self.start_reference {
                Some(start) => Ok(span_between(start, now)),
                None => Err(TimerErrorView::NoneUnexpected),
            }
        }
    }

    /// Starts the clock at the reading `now`. Only a timer in `Init` starts.
    pub open spec fn start(self, now: nat) -> Result<TimerView, TimerErrorView> {
        if self.state == TimerState::Init {
            Ok(TimerView { state: TimerState::Running, start_reference: Some(now), ..self })
        } else {
            Err(
                TimerErrorView::IllegalStateTransition {
                    current: self.state,
                    next: TimerState::Running,
                },
            )
        }
    }

    /// Halts the clock at the reading `now`. Only a running timer pauses.
    pub open spec fn pause(self, now: nat) -> Result<TimerView, TimerErrorView> {
        match self.next_state(TimerState::Paused) {
            Ok(state) => Ok(TimerView { state, last_paused: Some(now), ..self }),
            Err(e) => Err(e),
        }
    }

    /// Lets the clock run again at the reading `now`. Only a paused timer
    /// resumes. The start reference moves forward by the time from the pause
    /// to `now`; where the moved reference would exceed [`CLOCK_MAX`], the
    /// resume is refused with `Unexpected`.
    pub open spec fn resume(self, now: nat) -> Result<TimerView, TimerErrorView> {
        if self.state != TimerState::Paused {
            Err(
                TimerErrorView::IllegalStateTransition {
                    current: self.state,
                    next: TimerState::Running,
                },
            )
        } else {
            match (self.start_reference, self.last_paused) {
                (Some(start), Some(paused)) => {
                    let shifted = start + span_between(paused, now);
                    if shifted <= CLOCK_MAX {
                        Ok(
                            TimerView {
                                state: TimerState::Running,
                                start_reference: Some(shifted),
                                ..self
                            },
                        )
                    } else {
                        Err(TimerErrorView::Unexpected)
                    }
                },
                _ => Err(TimerErrorView::NoneUnexpected),
            }
        }
    }

    /// Stops the clock for good at the reading `now`. A running or paused
    /// timer finishes, and every subtimer is stamped with the final elapsed
    /// time, whether it had finished before or not.
    pub open spec fn finish(self, now: nat) -> Result<TimerView, TimerErrorView> {
        match self.next_state(TimerState::Finished) {
            Ok(state) => match self.start_reference {
                Some(start) => Ok(
                    TimerView {
                        state,
                        sub_timers: all_stamped(self.sub_timers.len(), span_between(start, now)),
                        ..self
                    },
                ),
                None => Err(TimerErrorView::NoneUnexpected),
            },
            Err(e) => Err(e),
        }
    }

    /// Returns a finished timer to the state of a fresh one: the readings and
    /// the subtimers are dropped.
    pub open spec fn reset(self) -> Result<TimerView, TimerErrorView> {
        match self.next_state(TimerState::Init) {
            Ok(_) => Ok(TimerView::fresh()),
            Err(e) => Err(e),
        }
    }

    /// Registers a subtimer behind those already there. The index handed out
    /// is the number of subtimers before the call.
    pub open spec fn add_subtimer(self) -> Result<TimerView, TimerErrorView> {
        if self.state == TimerState::Init {
            Ok(TimerView { sub_timers: self.sub_timers.push(SubTimerView::fresh()), ..self })
        } else {
            Err(TimerErrorView::Unsupported { state: self.state, operation: "add subtimer"@ })
        }
    }

    /// Finishes the subtimer `index` of a running timer at the reading `now`,
    /// recording the elapsed time. A subtimer that has finished already is
    /// refused as `Unsupported` in state `Finished`. Where this leaves every
    /// subtimer finished, the timer itself finishes at the same reading. On
    /// success the subtimer returned is the one at `index` in the view after.
    pub open spec fn finish_subtimer(self, index: usize, now: nat) -> Result<
        TimerView,
        TimerErrorView,
    > {
        if self.state != TimerState::Running {
            Err(TimerErrorView::Unsupported { state: self.state, operation: "finish subtimer"@ })
        } else if index >= self.sub_timers.len() {
            Err(TimerErrorView::InvalidSubtimerIndex(index))
        } else {
            match self.start_reference {
                None => Err(TimerErrorView::NoneUnexpected),
                Some(start) => if self.sub_timers[index as int].finished {
                    Err(
                        TimerErrorView::Unsupported {
                            state: TimerState::Finished,
                            operation: "finish subtimer"@,
                        },
                    )
                } else {
                    let stamped = SubTimerView::stamped(span_between(start, now));
                    let marked = TimerView {
                        sub_timers: self.sub_timers.update(index as int, stamped),
                        ..self
                    };
                    if all_finished(marked.sub_timers) {
                        marked.finish(now)
                    } else {
                        Ok(marked)
                    }
                },
            }
        }
    }

    /// Removes the subtimer `index` of a timer in `Init`. The subtimers behind
    /// it move down by one index.
    pub open spec fn delete_subtimer(self, index: usize) -> Result<TimerView, TimerErrorView> {
        if self.state != TimerState::Init {
            Err(TimerErrorView::Unsupported { state: self.state, operation: "delete subtimer"@ })
        } else {
            match self.check_subtimer_index(index) {
                Ok(_) => Ok(TimerView { sub_timers: self.sub_timers.remove(index as int), ..self }),
                Err(e) => Err(e),
            }
        }
    }

    /// The subtimer `index`, in any state of the timer.
    pub open spec fn get_subtimer(self, index: usize) -> Result<SubTimerView, TimerErrorView> {
        match self.check_subtimer_index(index) {
            Ok(_) => Ok(self.sub_timers[index as int]),
            Err(e) => Err(e),
        }
    }

    /// Opens the subtimer `index` of a running timer again: its time is
    /// dropped and it counts as unfinished. A finished timer would first have
    /// to resume, which the transition table refuses, so the answer there is
    /// the error of that resume.
    pub open spec fn resume_subtimer(self, index: usize) -> Result<TimerView, TimerErrorView> {
        if self.state == TimerState::Finished {
            Err(
                TimerErrorView::IllegalStateTransition {
                    current: self.state,
                    next: TimerState::Running,
                },
            )
        } else if self.state != TimerState::Running {
            Err(TimerErrorView::Unsupported { state: self.state, operation: "resume subtimer"@ })
        } else {
            match self.check_subtimer_index(index) {
                Ok(_) => Ok(
                    TimerView {
                        sub_timers: self.sub_timers.update(index as int, SubTimerView::fresh()),
                        ..self
                    },
                ),
                Err(e) => Err(e),
            }
        }
    }

    /// What `op` prescribes for this timer: the view after, or the error.
    pub open spec fn apply(self, op: Operation) -> Result<TimerView, TimerErrorView> {
        match op {
            Operation::Start { now } => self.start(now),
            Operation::Pause { now } => self.pause(now),
            Operation::Resume { now } => self.resume(now),
            Operation::Finish { now } => self.finish(now),
            Operation::Reset => self.reset(),
            Operation::AddSubtimer => self.add_subtimer(),
            Operation::FinishSubtimer { index, now } => self.finish_subtimer(index, now),
            Operation::DeleteSubtimer { index } => self.delete_subtimer(index),
            Operation::ResumeSubtimer { index } => self.resume_subtimer(index),
        }
    }

    /// The timer after a call of `op`: changed as prescribed where the call
    /// succeeds, and as it was where the call fails.
    pub open spec fn after(self, op: Operation) -> TimerView {
        match self.apply(op) {
            Ok(next) => next,
            Err(_) => self,
        }
    }

    /// The timer after the calls of `ops`, made in order.
    pub open spec fn after_all(self, ops: Seq<Operation>) -> TimerView
        decreases ops.len(),
    {
        if ops.len() == 0 {
            self
        } else {
            self.after_all(ops.drop_last()).after(ops.last())
        }
    }
}

} // verus!
