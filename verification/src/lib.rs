//! A Pomodoro-style work/break interval timer.
//!
//! The timer tracks which phase (work or break) is active and whether the
//! current interval is ready, running, paused, or complete. The remaining
//! countdown is always recomputed from a monotonic clock reading, never from
//! periodic ticks, so a missed tick or a suspended process cannot skew it.
//!
//! Every transition is available in two forms: a method that reads the
//! monotonic clock itself (`start`, `pause`, ...) and a method that takes the
//! clock reading as an argument (`start_at`, `pause_at`, ...). The latter
//! family carries exact contracts over the ghost model in [`model`].

pub mod clock;
pub mod laws;
pub mod model;
pub mod parse;
pub mod timer;
