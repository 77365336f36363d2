//! A sub-measurement of a timer.

use vstd::prelude::*;
use crate::elapsed::Elapsed;
use crate::error::{TimerError, TimerErrorView};

verus! {

/// One sub-measurement, owned by its parent timer and changed only through it.
#[derive(Debug, PartialEq)]
pub struct SubTimer {
    time: Option<Elapsed>,
    finished: bool,
}

/// The mathematical content of a [`SubTimer`].
pub struct SubTimerView {
    /// The elapsed time recorded when the subtimer finished, in nanoseconds.
    pub time: Option<nat>,
    /// Whether the subtimer has finished.
    pub finished: bool,
}

impl SubTimerView {
    /// A subtimer as it is registered: unfinished, with no time recorded.
    pub open spec fn fresh() -> SubTimerView {
        SubTimerView { time: None, finished: false }
    }

    /// A subtimer finished with `time` nanoseconds on the clock.
    pub open spec fn stamped(time: nat) -> SubTimerView {
        SubTimerView { time: Some(time), finished: true }
    }

    /// A time is recorded exactly when the subtimer has finished.
    pub open spec fn wf(self) -> bool {
        self.finished <==> self.time is Some
    }

    /// What [`SubTimer::get_time`] answers.
    pub open spec fn get_time(self) -> Result<nat, TimerErrorView> {
        if !self.finished {
            Err(TimerErrorView::SubTimerNotFinished)
        } else {
            match self.time {
                Some(time) => Ok(time),
                None => Err(TimerErrorView::NoneUnexpected),
            }
        }
    }
}

impl View for SubTimer {
    type V = SubTimerView;

    closed spec fn view(&self) -> SubTimerView {
        SubTimerView {
            time: match self.time {
                Some(time) => Some(time@),
                None => None,
            },
            finished: self.finished,
        }
    }
}

impl SubTimer {
    /// A subtimer as it is registered.
    pub(crate) fn fresh() -> (sub: SubTimer)
        ensures
            sub@ == SubTimerView::fresh(),
    {
        SubTimer { time: None, finished: false }
    }

    /// Marks the subtimer as finished at `time`.
    pub(crate) fn stamp(&mut self, time: Elapsed)
        ensures
            final(self)@ == SubTimerView::stamped(time@),
    {
        self.time = Some(time);
        self.finished = true;
    }

    /// Opens the subtimer again, dropping its time.
    pub(crate) fn reopen(&mut self)
        ensures
            final(self)@ == SubTimerView::fresh(),
    {
        self.finished = false;
        self.time = None;
    }

    /// The elapsed time recorded when this subtimer finished.
    ///
    /// Fails with `SubTimerNotFinished` while the subtimer is unfinished, and
    /// with `NoneUnexpected` if it is finished without a recorded time.
    pub fn get_time(&self) -> (r: Result<Elapsed, TimerError>)
        ensures
            match self@.get_time() {
                Ok(time) => r matches Ok(t) && t@ == time,
                Err(e) => r matches Err(err) && err@ == e,
            },
    {
        if !self.finished {
            return Err(TimerError::SubTimerNotFinished);
        }
        let time = match self.time {
            Some(time) => time,
            None => return Err(TimerError::NoneUnexpected),
        };
        Ok(time)
    }

    /// Whether this subtimer has finished.
    pub fn is_finished(&self) -> (finished: bool)
        ensures
            finished == self@.finished,
    {
        self.finished
    }
}

} // verus!
