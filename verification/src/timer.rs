//! The executable timer.

use vstd::prelude::*;
use std::time::Instant;
use crate::elapsed::Elapsed;
use crate::error::TimerError;
use crate::laws::law_operations_preserve_wf;
use crate::model::{all_finished, all_stamped, Operation, TimerView, CLOCK_MAX};
use crate::state::TimerState;
use crate::subtimer::{SubTimer, SubTimerView};

verus! {

/// A stopwatch with a lifecycle: it is started, paused and resumed any number
/// of times, finished, and reset for the next round. Subtimers registered
/// before the start measure phases against the same start reference.
///
/// Each operation that needs the time comes in two forms. The plain one reads
/// the timer's own monotonic clock, which counts the nanoseconds since the
/// timer was made. The one whose name ends in `_at` takes the reading from
/// the caller, in nanoseconds, and says exactly what it does with it. All
/// readings that one timer sees should come from one clock, so the two forms
/// are not meant to be mixed on one timer.
pub struct Timer {
    origin: Instant,
    start_time: Option<u128>,
    timer_state: TimerState,
    last_paused: Option<u128>,
    sub_timers: Vec<SubTimer>,
}

impl View for Timer {
    type V = TimerView;

    closed spec fn view(&self) -> TimerView {
        TimerView {
            state: self.timer_state,
            start_reference: match self.start_time {
                Some(start) => Some(start as nat),
                None => None,
            },
            last_paused: match self.last_paused {
                Some(paused) => Some(paused as nat),
                None => None,
            },
            sub_timers: self.sub_timers@.map_values(|sub: SubTimer| sub@),
        }
    }
}

impl Timer {
    /// A timer in `Init`, with no subtimers.
    pub fn new() -> (timer: Timer)
        ensures
            timer@ == TimerView::fresh(),
            timer@.wf(),
    {
        let timer = Timer {
            origin: Instant::now(),
            start_time: None,
            timer_state: TimerState::Init,
            last_paused: None,
            sub_timers: Vec::new(),
        };
        assert(timer@.sub_timers =~= Seq::empty());
        timer
    }

    /// Reads the timer's clock: the nanoseconds since the timer was made.
    fn read_clock(&self) -> u128 {
        self.origin.elapsed().as_nanos()
    }

    /// The lifecycle state of the timer.
    pub fn state(&self) -> (state: TimerState)
        ensures
            state == self@.state,
    {
        self.timer_state
    }

    /// The state after a move to `state`, or `IllegalStateTransition` where
    /// the transition table does not hold the move. The timer itself stays as it is.
    pub fn next_state(&self, state: TimerState) -> (r: Result<TimerState, TimerError>)
        ensures
            match self@.next_state(state) {
                Ok(next) => r == Ok::<TimerState, TimerError>(next),
                Err(e) => r matches Err(err) && err@ == e,
            },
    {
        let timer_error = TimerError::IllegalStateTransition {
            current: self.timer_state,
            next: state,
        };
        match state {
            TimerState::Init => match self.timer_state {
                TimerState::Finished => Ok(TimerState::Init),
                _ => Err(timer_error),
            },
            TimerState::Running => match self.timer_state {
                TimerState::Paused | TimerState::Init => Ok(TimerState::Running),
                _ => Err(timer_error),
            },
            TimerState::Paused => match self.timer_state {
                TimerState::Running => Ok(TimerState::Paused),
                _ => Err(timer_error),
            },
            TimerState::Finished => match self.timer_state {
                TimerState::Running | TimerState::Paused => Ok(TimerState::Finished),
                _ => Err(timer_error),
            },
        }
    }

    /// The elapsed time at the clock reading `now`, in any state but `Init`.
    pub fn get_time_at(&self, now: u128) -> (r: Result<Elapsed, TimerError>)
        ensures
            match self@.get_time(now as nat) {
                Ok(time) => r matches Ok(t) && t@ == time,
                Err(e) => r matches Err(err) && err@ == e,
            },
    {
        if self.timer_state == TimerState::Init {
            return Err(TimerError::unsupported(self.timer_state, "get time"));
        }
        if let Some(start_time) = self.start_time {
            Ok(Elapsed::from_nanos(now.saturating_sub(start_time)))
        } else {
            Err(TimerError::NoneUnexpected)
        }
    }

    /// The elapsed time by the timer's own clock: what [`Timer::get_time_at`]
    /// answers for the reading taken.
    pub fn get_time(&self) -> (r: Result<Elapsed, TimerError>)
        ensures
            r is Ok <==> self@.state != TimerState::Init && self@.start_reference is Some,
            exists|now: nat|
                now <= CLOCK_MAX && match #[trigger] self@.get_time(now) {
                    Ok(time) => r matches Ok(t) && t@ == time,
                    Err(e) => r matches Err(err) && err@ == e,
                },
    {
        let now = self.read_clock();
        let r = self.get_time_at(now);
        assert(now as nat <= CLOCK_MAX);
        r
    }

    /// Starts the clock at the reading `now`. Succeeds exactly in `Init`.
    pub fn start_at(&mut self, now: u128) -> (r: Result<(), TimerError>)
        ensures
            match old(self)@.start(now as nat) {
                Ok(next) => r is Ok && final(self)@ == next,
                Err(e) => r matches Err(err) && err@ == e && final(self)@ == old(self)@,
            },
            old(self)@.wf() ==> final(self)@.wf(),
    {
        if self.timer_state != TimerState::Init {
            return Err(
                TimerError::IllegalStateTransition {
                    current: self.timer_state,
                    next: TimerState::Running,
                },
            );
        }
        self.timer_state = self.next_state(TimerState::Running)?;
        self.start_time = Some(now);
        proof {
            if old(self)@.wf() {
                law_operations_preserve_wf(old(self)@, Operation::Start { now: now as nat });
            }
        }
        Ok(())
    }

    /// Starts the clock at the reading of the timer's own clock.
    pub fn start(&mut self) -> (r: Result<(), TimerError>)
        ensures
            r is Ok <==> old(self)@.state == TimerState::Init,
            exists|now: nat|
                now <= CLOCK_MAX && match #[trigger] old(self)@.start(now) {
                    Ok(next) => r is Ok && final(self)@ == next,
                    Err(e) => r matches Err(err) && err@ == e && final(self)@ == old(self)@,
                },
            old(self)@.wf() ==> final(self)@.wf(),
    {
        let now = self.read_clock();
        let r = self.start_at(now);
        assert(now as nat <= CLOCK_MAX);
        r
    }

    /// Halts the clock at the reading `now`. Succeeds exactly in `Running`.
    pub fn pause_at(&mut self, now: u128) -> (r: Result<(), TimerError>)
        ensures
            match old(self)@.pause(now as nat) {
                Ok(next) => r is Ok && final(self)@ == next,
                Err(e) => r matches Err(err) && err@ == e && final(self)@ == old(self)@,
            },
            old(self)@.wf() ==> final(self)@.wf(),
    {
        self.timer_state = self.next_state(TimerState::Paused)?;
        self.last_paused = Some(now);
        proof {
            if old(self)@.wf() {
                law_operations_preserve_wf(old(self)@, Operation::Pause { now: now as nat });
            }
        }
        Ok(())
    }

    /// Halts the clock at the reading of the timer's own clock.
    pub fn pause(&mut self) -> (r: Result<(), TimerError>)
        ensures
            r is Ok <==> old(self)@.state == TimerState::Running,
            exists|now: nat|
                now <= CLOCK_MAX && match #[trigger] old(self)@.pause(now) {
                    Ok(next) => r is Ok && final(self)@ == next,
                    Err(e) => r matches Err(err) && err@ == e && final(self)@ == old(self)@,
                },
            old(self)@.wf() ==> final(self)@.wf(),
    {
        let now = self.read_clock();
        let r = self.pause_at(now);
        assert(now as nat <= CLOCK_MAX);
        r
    }

    /// Lets the clock run again at the reading `now`, taking the time since
    /// the pause out of the elapsed time. Succeeds in `Paused`, unless the
    /// moved start reference would exceed the clock's range.
    pub fn resume_at(&mut self, now: u128) -> (r: Result<(), TimerError>)
        ensures
            match old(self)@.resume(now as nat) {
                Ok(next) => r is Ok && final(self)@ == next,
                Err(e) => r matches Err(err) && err@ == e && final(self)@ == old(self)@,
            },
            old(self)@.wf() ==> final(self)@.wf(),
    {
        // A timer in `Init` has nothing to resume, though the table lets it reach `Running`.
        if self.timer_state == TimerState::Init {
            return Err(
                TimerError::IllegalStateTransition {
                    current: self.timer_state,
                    next: TimerState::Running,
                },
            );
        }
        let next = self.next_state(TimerState::Running)?;
        let start_time = match self.start_time {
            Some(start_time) => start_time,
            None => return Err(TimerError::NoneUnexpected),
        };
        let last_paused = match self.last_paused {
            Some(last_paused) => last_paused,
            None => return Err(TimerError::NoneUnexpected),
        };
        let shifted = match start_time.checked_add(now.saturating_sub(last_paused)) {
            Some(shifted) => shifted,
            None => return Err(TimerError::Unexpected),
        };
        self.timer_state = next;
        self.start_time = Some(shifted);
        proof {
            if old(self)@.wf() {
                law_operations_preserve_wf(old(self)@, Operation::Resume { now: now as nat });
            }
        }
        Ok(())
    }

    /// Lets the clock run again at the reading of the timer's own clock.
    pub fn resume(&mut self) -> (r: Result<(), TimerError>)
        ensures
            r is Ok ==> old(self)@.state == TimerState::Paused,
            exists|now: nat|
                now <= CLOCK_MAX && match #[trigger] old(self)@.resume(now) {
                    Ok(next) => r is Ok && final(self)@ == next,
                    Err(e) => r matches Err(err) && err@ == e && final(self)@ == old(self)@,
                },
            old(self)@.wf() ==> final(self)@.wf(),
    {
        let now = self.read_clock();
        let r = self.resume_at(now);
        assert(now as nat <= CLOCK_MAX);
        r
    }

    /// Returns a finished timer to `Init`, without readings and without
    /// subtimers: the timer is then as a fresh one. Succeeds exactly in `Finished`.
    pub fn reset(&mut self) -> (r: Result<(), TimerError>)
        ensures
            match old(self)@.reset() {
                Ok(next) => r is Ok && final(self)@ == next,
                Err(e) => r matches Err(err) && err@ == e && final(self)@ == old(self)@,
            },
            old(self)@.wf() ==> final(self)@.wf(),
    {
        self.timer_state = self.next_state(TimerState::Init)?;
        self.start_time = None;
        self.last_paused = None;
        self.sub_timers.clear();
        assert(self@.sub_timers =~= Seq::empty());
        Ok(())
    }

    /// Stops the clock for good at the reading `now` and stamps every
    /// subtimer with the final elapsed time. Succeeds in `Running` and `Paused`.
    pub fn finish_at(&mut self, now: u128) -> (r: Result<(), TimerError>)
        ensures
            match old(self)@.finish(now as nat) {
                Ok(next) => r is Ok && final(self)@ == next,
                Err(e) => r matches Err(err) && err@ == e && final(self)@ == old(self)@,
            },
            old(self)@.wf() ==> final(self)@.wf(),
    {
        let next = self.next_state(TimerState::Finished)?;
        let start_time = match self.start_time {
            Some(start_time) => start_time,
            None => return Err(TimerError::NoneUnexpected),
        };
        let time = Elapsed::from_nanos(now.saturating_sub(start_time));
        self.timer_state = next;
        let count = self.sub_timers.len();
        let mut i: usize = 0;
        while i < count
            invariant
                i <= count,
                count == self.sub_timers.len(),
                self.timer_state == next,
                self.start_time == old(self).start_time,
                self.last_paused == old(self).last_paused,
                forall|j: int|
                    0 <= j < i ==> (#[trigger] self.sub_timers[j])@ == SubTimerView::stamped(
                        time@,
                    ),
            decreases count - i,
        {
            self.sub_timers[i].stamp(time);
            i += 1;
        }
        proof {
            assert(self@.sub_timers =~= all_stamped(old(self)@.sub_timers.len(), time@));
            if old(self)@.wf() {
                law_operations_preserve_wf(old(self)@, Operation::Finish { now: now as nat });
            }
        }
        Ok(())
    }

    /// Stops the clock for good at the reading of the timer's own clock.
    pub fn finish(&mut self) -> (r: Result<(), TimerError>)
        ensures
            r is Ok <==> (old(self)@.state == TimerState::Running || old(self)@.state
                == TimerState::Paused) && old(self)@.start_reference is Some,
            exists|now: nat|
                now <= CLOCK_MAX && match #[trigger] old(self)@.finish(now) {
                    Ok(next) => r is Ok && final(self)@ == next,
                    Err(e) => r matches Err(err) && err@ == e && final(self)@ == old(self)@,
                },
            old(self)@.wf() ==> final(self)@.wf(),
    {
        let now = self.read_clock();
        let r = self.finish_at(now);
        assert(now as nat <= CLOCK_MAX);
        r
    }

    /// Registers a subtimer and returns its index, the number of subtimers
    /// registered before it. Succeeds exactly in `Init`.
    pub fn add_subtimer(&mut self) -> (r: Result<usize, TimerError>)
        ensures
            match old(self)@.add_subtimer() {
                Ok(next) => r == Ok::<usize, TimerError>(old(self)@.sub_timers.len() as usize)
                    && final(self)@ == next,
                Err(e) => r matches Err(err) && err@ == e && final(self)@ == old(self)@,
            },
            old(self)@.wf() ==> final(self)@.wf(),
    {
        if self.timer_state != TimerState::Init {
            return Err(TimerError::unsupported(self.timer_state, "add subtimer"));
        }
        let sub_timer = SubTimer::fresh();
        self.sub_timers.push(sub_timer);
        proof {
            assert(self@.sub_timers =~= old(self)@.sub_timers.push(SubTimerView::fresh()));
            if old(self)@.wf() {
                law_operations_preserve_wf(old(self)@, Operation::AddSubtimer);
            }
        }
        Ok(self.sub_timers.len() - 1)
    }

    /// Accepts `index` where a subtimer is registered under it.
    pub fn check_subtimer_index(&self, index: usize) -> (r: Result<(), TimerError>)
        ensures
            match self@.check_subtimer_index(index) {
                Ok(_) => r is Ok,
                Err(e) => r matches Err(err) && err@ == e,
            },
    {
        if index >= self.sub_timers.len() {
            return Err(TimerError::InvalidSubtimerIndex(index));
        }
        Ok(())
    }

    /// Removes the subtimer `index`; the subtimers behind it move down by one
    /// index. Succeeds in `Init` for a registered index.
    pub fn delete_subtimer(&mut self, index: usize) -> (r: Result<(), TimerError>)
        ensures
            match old(self)@.delete_subtimer(index) {
                Ok(next) => r is Ok && final(self)@ == next,
                Err(e) => r matches Err(err) && err@ == e && final(self)@ == old(self)@,
            },
            old(self)@.wf() ==> final(self)@.wf(),
    {
        if self.timer_state != TimerState::Init {
            return Err(TimerError::unsupported(self.timer_state, "delete subtimer"));
        }
        self.check_subtimer_index(index)?;
        self.sub_timers.remove(index);
        proof {
            assert(self@.sub_timers =~= old(self)@.sub_timers.remove(index as int));
            if old(self)@.wf() {
                law_operations_preserve_wf(old(self)@, Operation::DeleteSubtimer { index });
            }
        }
        Ok(())
    }

    /// The subtimer `index`, in any state of the timer, which stays as it is.
    pub fn get_subtimer(&mut self, index: usize) -> (r: Result<&SubTimer, TimerError>)
        ensures
            match old(self)@.get_subtimer(index) {
                Ok(sub) => r matches Ok(s) && s@ == sub,
                Err(e) => r matches Err(err) && err@ == e,
            },
            final(self)@ == old(self)@,
    {
        self.check_subtimer_index(index)?;
        Ok(&self.sub_timers[index])
    }

    /// Finishes the subtimer `index` at the reading `now` and returns it.
    ///
    /// The timer must be running, or the call fails with `Unsupported` in
    /// the timer's state. A subtimer that has finished already is refused
    /// with `Unsupported` in state `Finished`. Where the call leaves no
    /// subtimer open, the timer finishes at the same reading, which stamps
    /// every subtimer with the final elapsed time.
    pub fn finish_subtimer_at(&mut self, index: usize, now: u128) -> (r: Result<
        &SubTimer,
        TimerError,
    >)
        ensures
            match old(self)@.finish_subtimer(index, now as nat) {
                Ok(next) => r matches Ok(sub) && sub@ == next.sub_timers[index as int]
                    && final(self)@ == next,
                Err(e) => r matches Err(err) && err@ == e && final(self)@ == old(self)@,
            },
            old(self)@.wf() ==> final(self)@.wf(),
    {
        if self.timer_state != TimerState::Running {
            return Err(TimerError::unsupported(self.timer_state, "finish subtimer"));
        }
        self.check_subtimer_index(index)?;
        let time = self.get_time_at(now)?;
        if self.sub_timers[index].is_finished() {
            return Err(TimerError::unsupported(TimerState::Finished, "finish subtimer"));
        }
        self.sub_timers[index].stamp(time);
        let ghost marked = self@;
        assert(marked.sub_timers =~= old(self)@.sub_timers.update(
            index as int,
            SubTimerView::stamped(time@),
        ));

        let count = self.sub_timers.len();
        let mut done = true;
        let mut i: usize = 0;
        while i < count
            invariant_except_break
                done,
                i <= count,
                forall|j: int| 0 <= j < i ==> (#[trigger] self.sub_timers[j])@.finished,
            invariant
                count == self.sub_timers.len(),
                self@ == marked,
            ensures
                done == all_finished(marked.sub_timers),
            decreases count - i,
        {
            if !self.sub_timers[i].is_finished() {
                done = false;
                assert(!marked.sub_timers[i as int].finished);
                break;
            }
            i += 1;
        }

        if done {
            self.finish_at(now)?;
        }
        proof {
            assert(self@.sub_timers.len() == self.sub_timers@.len());
            assert(self@.sub_timers[index as int] == self.sub_timers@[index as int]@);
            if old(self)@.wf() {
                law_operations_preserve_wf(
                    old(self)@,
                    Operation::FinishSubtimer { index, now: now as nat },
                );
            }
        }
        Ok(&self.sub_timers[index])
    }

    /// Finishes the subtimer `index` at the reading of the timer's own clock.
    pub fn finish_subtimer(&mut self, index: usize) -> (r: Result<&SubTimer, TimerError>)
        ensures
            r is Ok <==> old(self)@.state == TimerState::Running && index
                < old(self)@.sub_timers.len() && old(self)@.start_reference is Some
                && !old(self)@.sub_timers[index as int].finished,
            exists|now: nat|
                now <= CLOCK_MAX && match #[trigger] old(self)@.finish_subtimer(index, now) {
                    Ok(next) => r matches Ok(sub) && sub@ == next.sub_timers[index as int]
                        && final(self)@ == next,
                    Err(e) => r matches Err(err) && err@ == e && final(self)@ == old(self)@,
                },
            old(self)@.wf() ==> final(self)@.wf(),
    {
        let now = self.read_clock();
        let r = self.finish_subtimer_at(index, now);
        assert(now as nat <= CLOCK_MAX);
        r
    }

    /// Opens the subtimer `index` of a running timer again, so that it can be
    /// finished once more.
    ///
    /// On a finished timer the call asks the timer to resume first; the
    /// transition table refuses that, and the call fails with the error of
    /// the resume. In `Init` and `Paused` it fails with `Unsupported`.
    pub fn resume_subtimer(&mut self, index: usize) -> (r: Result<(), TimerError>)
        ensures
            match old(self)@.resume_subtimer(index) {
                Ok(next) => r is Ok && final(self)@ == next,
                Err(e) => r matches Err(err) && err@ == e && final(self)@ == old(self)@,
            },
            old(self)@.wf() ==> final(self)@.wf(),
    {
        if self.timer_state == TimerState::Finished {
            self.resume()?;
        } else if self.timer_state != TimerState::Running {
            return Err(TimerError::unsupported(self.timer_state, "resume subtimer"));
        }
        self.check_subtimer_index(index)?;
        self.sub_timers[index].reopen();
        proof {
            assert(self@.sub_timers =~= old(self)@.sub_timers.update(
                index as int,
                SubTimerView::fresh(),
            ));
            if old(self)@.wf() {
                law_operations_preserve_wf(old(self)@, Operation::ResumeSubtimer { index });
            }
        }
        Ok(())
    }
}

} // verus!
