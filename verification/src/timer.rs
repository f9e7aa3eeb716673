//! The countdown's two states, what each shows, and the one transition.

use vstd::prelude::*;
use crate::decimal::{decimal, push_decimal};
use crate::time::{TimeSpan, Timestamp, NANOS_PER_SEC};

verus! {

/// Length of one work period, in seconds: twenty-five minutes.
pub const WORK_DURATION_SECS: u64 = 25 * 60;

/// What the timer is doing.
#[derive(Clone, Copy, Debug, PartialEq, Eq, Structural)]
pub enum TimerState {
    /// Nothing has been started.
    Idle,
    /// The countdown began at `start` and has been going on since.
    Running { start: Timestamp },
}

impl Default for TimerState {
    /// A timer starts out idle.
    fn default() -> (state: TimerState)
        ensures
            state == TimerState::Idle,
    {
        TimerState::Idle
    }
}

/// How far a work period has come, as the exact fraction `elapsed / total`.
///
/// The fraction is not capped: once the period is over it goes on growing
/// beyond one.
#[derive(Clone, Copy, Debug, PartialEq, Eq, Structural)]
pub struct Progress {
    /// Time run so far.
    pub elapsed: TimeSpan,
    /// Length of the whole period.
    pub total: TimeSpan,
}

/// What one frame shows, and the state to keep for the next one.
#[derive(Debug, PartialEq, Eq)]
pub struct Frame {
    /// Text of the time label.
    pub display_label: String,
    /// Filling of the progress bar.
    pub progress: Progress,
    /// State after this frame.
    pub next_state: TimerState,
}

/// Nanoseconds run at `now`: none while idle, else the time since the start,
/// and none as well should `now` lie before the start.
pub open spec fn elapsed_nanos(state: TimerState, now: Timestamp) -> nat {
    match state {
        TimerState::Idle => 0,
        TimerState::Running { start } => if now@ >= start@ {
            (now@ - start@) as nat
        } else {
            0
        },
    }
}

/// Whole seconds run at `now`, rounded down.
pub open spec fn elapsed_whole_seconds(state: TimerState, now: Timestamp) -> nat {
    elapsed_nanos(state, now) / (NANOS_PER_SEC as nat)
}

/// Nanoseconds in a whole work period.
pub open spec fn work_nanos() -> nat {
    WORK_DURATION_SECS as nat * NANOS_PER_SEC as nat
}

/// `seconds` as minutes and remaining seconds with a colon between them,
/// neither of them padded.
pub open spec fn duration_text(seconds: nat) -> Seq<char> {
    decimal(seconds / 60) + seq![':'] + decimal(seconds % 60)
}

/// Text of the time label: the whole work period while idle, the time run so
/// far once started.
pub open spec fn label_text(state: TimerState, now: Timestamp) -> Seq<char> {
    match state {
        TimerState::Idle => duration_text(WORK_DURATION_SECS as nat),
        TimerState::Running { .. } => duration_text(elapsed_whole_seconds(state, now)),
    }
}

/// The state that follows `state` after one frame at `now`: an idle timer
/// starts at `now` if the start action was triggered, and a running timer
/// stays as it is whatever happens.
pub open spec fn step(state: TimerState, now: Timestamp, start_action_triggered: bool) -> TimerState {
    match state {
        TimerState::Idle => if start_action_triggered {
            TimerState::Running { start: now }
        } else {
            TimerState::Idle
        },
        TimerState::Running { start } => TimerState::Running { start },
    }
}

/// The state after the frames of `frames` have passed in turn, beginning in
/// `state`. A frame is the time at which it is drawn and whether the start
/// action was triggered in it.
pub open spec fn run(state: TimerState, frames: Seq<(Timestamp, bool)>) -> TimerState
    decreases frames.len(),
{
    if frames.len() == 0 {
        state
    } else {
        step(run(state, frames.drop_last()), frames.last().0, frames.last().1)
    }
}

/// A timer started at `t0` counts from `t0`: at any `now` not before `t0` the
/// time run is exactly `now - t0`, of which the whole seconds are shown, and
/// the progress is that time over the work period of 1500 seconds, however far
/// beyond the period `now` lies.
pub proof fn lemma_started_timer_counts_from_start(t0: Timestamp, now: Timestamp)
    requires
        now@ >= t0@,
    ensures
        step(TimerState::Idle, t0, true) == (TimerState::Running { start: t0 }),
        elapsed_nanos(step(TimerState::Idle, t0, true), now) == now@ - t0@,
        elapsed_whole_seconds(step(TimerState::Idle, t0, true), now)
            == (now@ - t0@) / (NANOS_PER_SEC as int),
        work_nanos() == 1500 * NANOS_PER_SEC,
{
}

/// A running timer keeps its start: whatever frames pass, at whatever times
/// and with or without the start action, the state stays `Running` with the
/// same `start`.
pub proof fn lemma_running_keeps_its_start(start: Timestamp, frames: Seq<(Timestamp, bool)>)
    ensures
        run(TimerState::Running { start }, frames) == (TimerState::Running { start }),
    decreases frames.len(),
{
    if frames.len() > 0 {
        lemma_running_keeps_its_start(start, frames.drop_last());
    }
}

/// An idle timer stays idle for as long as no frame triggers the start action.
pub proof fn lemma_idle_until_started(frames: Seq<(Timestamp, bool)>)
    requires
        forall|i: int| 0 <= i < frames.len() ==> !(#[trigger] frames[i]).1,
    ensures
        run(TimerState::Idle, frames) == TimerState::Idle,
    decreases frames.len(),
{
    if frames.len() > 0 {
        lemma_idle_until_started(frames.drop_last());
    }
}

/// The start is set once: if frame `first` is the earliest that triggers the
/// start action, an idle timer is afterwards running since the time of that
/// frame, whatever the later frames hold.
pub proof fn lemma_start_is_set_once(frames: Seq<(Timestamp, bool)>, first: int)
    requires
        0 <= first < frames.len(),
        frames[first].1,
        forall|i: int| 0 <= i < first ==> !(#[trigger] frames[i]).1,
    ensures
        run(TimerState::Idle, frames) == (TimerState::Running { start: frames[first].0 }),
    decreases frames.len(),
{
    let earlier = frames.drop_last();
    if first == frames.len() - 1 {
        lemma_idle_until_started(earlier);
    } else {
        lemma_start_is_set_once(earlier, first);
    }
}

/// Time run at `now`.
fn elapsed(state: TimerState, now: Timestamp) -> (span: TimeSpan)
    ensures
        span@ == elapsed_nanos(state, now),
{
    match state {
        TimerState::Idle => TimeSpan::from_secs(0),
        TimerState::Running { start } => now.since(&start),
    }
}

/// Whole seconds run at `now`, rounded down; zero while idle.
pub fn elapsed_seconds(state: TimerState, now: Timestamp) -> (seconds: u64)
    ensures
        seconds as nat == elapsed_whole_seconds(state, now),
        state is Idle ==> seconds == 0,
{
    elapsed(state, now).as_secs()
}

/// The part of the work period that has run at `now`; zero while idle.
pub fn progress_fraction(state: TimerState, now: Timestamp) -> (progress: Progress)
    ensures
        progress.elapsed@ == elapsed_nanos(state, now),
        progress.total@ == work_nanos(),
        state is Idle ==> progress.elapsed@ == 0,
{
    Progress { elapsed: elapsed(state, now), total: TimeSpan::from_secs(WORK_DURATION_SECS) }
}

/// Writes `seconds` as `minutes:seconds`, without padding either number.
pub fn format_duration(seconds: u64) -> (label: String)
    ensures
        label@ == duration_text(seconds as nat),
{
    let mut label = String::new();
    push_decimal(&mut label, seconds / 60);
    proof {
        reveal_strlit(":");
    }
    label.append(":");
    push_decimal(&mut label, seconds % 60);
    label
}

/// The time label to show at `now`.
pub fn display_label(state: TimerState, now: Timestamp) -> (label: String)
    ensures
        label@ == label_text(state, now),
{
    match state {
        TimerState::Idle => format_duration(WORK_DURATION_SECS),
        TimerState::Running { .. } => format_duration(elapsed_seconds(state, now)),
    }
}

/// The state to keep after a frame at `now`.
pub fn next_state(state: TimerState, now: Timestamp, start_action_triggered: bool) -> (next: TimerState)
    ensures
        next == step(state, now, start_action_triggered),
{
    match state {
        TimerState::Idle => if start_action_triggered {
            TimerState::Running { start: now }
        } else {
            TimerState::Idle
        },
        TimerState::Running { start } => TimerState::Running { start },
    }
}

/// One frame: what to show for `state` at `now`, and the state that follows.
pub fn render_frame(state: TimerState, now: Timestamp, start_action_triggered: bool) -> (frame: Frame)
    ensures
        frame.display_label@ == label_text(state, now),
        frame.progress.elapsed@ == elapsed_nanos(state, now),
        frame.progress.total@ == work_nanos(),
        frame.next_state == step(state, now, start_action_triggered),
{
    let progress = progress_fraction(state, now);
    let display_label = display_label(state, now);
    let next_state = next_state(state, now, start_action_triggered);
    Frame { display_label, progress, next_state }
}

} // verus!
