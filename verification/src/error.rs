//! What a timer operation reports when it cannot be carried out.

use vstd::prelude::*;
use crate::state::TimerState;

verus! {

/// The failures of the timer's operations. Each is local and recoverable: the
/// operation that reports one has changed nothing.
#[derive(Debug)]
pub enum TimerError {
    /// The lifecycle move from `current` to `next` is not in the transition table.
    IllegalStateTransition { current: TimerState, next: TimerState },
    /// `operation` is not a lifecycle move and is not available in `state`.
    Unsupported { state: TimerState, operation: String },
    /// No subtimer is registered under this index.
    InvalidSubtimerIndex(usize),
    /// A value that the current state promises was absent.
    NoneUnexpected,
    /// The subtimer was asked for its time before it was finished.
    SubTimerNotFinished,
    /// The shifted start reference would not fit the clock's range.
    Unexpected,
}

/// The mathematical content of a [`TimerError`]: the same variants, with the
/// operation name as a sequence of characters.
pub enum TimerErrorView {
    IllegalStateTransition { current: TimerState, next: TimerState },
    Unsupported { state: TimerState, operation: Seq<char> },
    InvalidSubtimerIndex(usize),
    NoneUnexpected,
    SubTimerNotFinished,
    Unexpected,
}

impl View for TimerError {
    type V = TimerErrorView;

    open spec fn view(&self) -> TimerErrorView {
        match *self {
            TimerError::IllegalStateTransition { current, next } =>
                TimerErrorView::IllegalStateTransition { current, next },
            TimerError::Unsupported { state, operation } =>
                TimerErrorView::Unsupported { state, operation: operation@ },
            TimerError::InvalidSubtimerIndex(index) => TimerErrorView::InvalidSubtimerIndex(index),
            TimerError::NoneUnexpected => TimerErrorView::NoneUnexpected,
            TimerError::SubTimerNotFinished => TimerErrorView::SubTimerNotFinished,
            TimerError::Unexpected => TimerErrorView::Unexpected,
        }
    }
}

impl TimerError {
    /// Builds the `Unsupported` error for `operation` attempted in `state`.
    pub(crate) fn unsupported(state: TimerState, operation: &str) -> (e: TimerError)
        ensures
            e@ == (TimerErrorView::Unsupported { state, operation: operation@ }),
    {
        TimerError::Unsupported { state, operation: operation.to_owned() }
    }
}

} // verus!
