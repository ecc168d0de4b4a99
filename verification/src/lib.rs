//! A verified interval-timing core: an elapsed-time accumulator with
//! pause/resume and debounced lap marks, a one-shot alert latch, a
//! work/break phase rotation automaton, and the command-driven update
//! logic of three timer controllers (stopwatch, single-target timer,
//! pomodoro). All time values are plain milliseconds; the current clock
//! reading is handed in by the caller, so every state transition is a
//! total, verified function.

pub mod alert;
pub mod config;
pub mod error;
pub mod format;
pub mod frame;
pub mod input;
pub mod pomodoro;
pub mod stopwatch;
pub mod timer;

pub use stopwatch::Stopwatch;
