//! A pomodoro countdown as a pure state machine.
//!
//! The timer is either idle or running since some point of a monotonic clock.
//! Once per frame the host hands in the current state, the current time and
//! whether the start action was triggered, and gets back what to show and the
//! state to keep for the next frame. Nothing here reads a clock or draws.

pub mod decimal;
pub mod time;
pub mod timer;

pub use time::{TimeSpan, Timestamp, NANOS_PER_SEC};
pub use timer::{
    display_label, elapsed_seconds, format_duration, next_state, progress_fraction, render_frame,
    Frame, Progress, TimerState, WORK_DURATION_SECS,
};
