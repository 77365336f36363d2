//! The lifecycle states of a timer and the table of moves between them.

use vstd::prelude::*;

verus! {

/// Where a timer stands in its lifecycle. Exactly one state is active at a time.
#[derive(PartialEq, Eq, Structural, Debug, Clone, Copy)]
pub enum TimerState {
    /// Configured but not yet started; the only state in which subtimers are declared.
    Init,
    /// The clock is running.
    Running,
    /// The clock is halted until the next resume.
    Paused,
    /// The measurement is over; only a reset leaves this state.
    Finished,
}

/// The transition table: whether a timer in state `current` may move to `target`.
///
/// `Init` is reached only from `Finished`, `Running` from `Init` or `Paused`,
/// `Paused` only from `Running`, and `Finished` from `Running` or `Paused`.
pub open spec fn transition_allowed(current: TimerState, target: TimerState) -> bool {
    match target {
        TimerState::Init => current == TimerState::Finished,
        TimerState::Running => current == TimerState::Init || current == TimerState::Paused,
        TimerState::Paused => current == TimerState::Running,
        TimerState::Finished => current == TimerState::Running || current == TimerState::Paused,
    }
}

} // verus!
