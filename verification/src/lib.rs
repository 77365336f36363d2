//! An elapsed-time tracker with an explicit lifecycle and optional
//! sub-measurements.
//!
//! A [`Timer`] is started, paused and resumed any number of times, finished,
//! and reset for the next round. The time spent paused is left out of the
//! elapsed time. [`SubTimer`]s registered before the start measure phases
//! against the same start reference; when the last of them finishes, the
//! timer finishes with it.
//!
//! The library is verified with Verus. [`model`] holds the timer as a
//! mathematical state machine, [`timer`] the executable timer with contracts
//! over that model, and [`laws`] what is proved of the state machine as a
//! whole. The only part taken on trust is the standard library's monotonic
//! clock, declared in [`clock`] with no claim about what it reads.

pub mod clock;
pub mod elapsed;
pub mod error;
pub mod laws;
pub mod model;
pub mod state;
pub mod subtimer;
pub mod timer;

pub use elapsed::Elapsed;
pub use error::TimerError;
pub use state::TimerState;
pub use subtimer::SubTimer;
pub use timer::Timer;
