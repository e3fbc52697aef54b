//! The countdown engine: phase, duration, anchor instant and cached remaining
//! time, with the operations a host refresh loop drives.

use vstd::prelude::*;
use crate::formatting::{format_duration, spec_mmss};

verus! {

/// The current mode of the countdown cycle.
#[derive(Clone, Copy, Debug, PartialEq, Eq, Structural)]
pub enum TimerState {
    Focus,
    Break,
    MicroBreak,
}

/// The mathematical model of a [`TimerCalculator`]: its anchor instant in
/// milliseconds, its configured duration and cached remaining time in whole
/// seconds, and its phase.
pub ghost struct TimerModel {
    pub start_ms: u64,
    pub duration: u32,
    pub remaining: u32,
    pub phase: TimerState,
}

/// Whole seconds elapsed between the anchor instant and a later clock reading,
/// both in milliseconds, rounded down.
pub open spec fn spec_elapsed_secs(start_ms: u64, now_ms: u64) -> int {
    (now_ms - start_ms) / 1000
}

/// Remaining seconds of a countdown: the duration minus the elapsed time,
/// saturating at zero rather than going negative.
pub open spec fn spec_remaining(duration: u32, elapsed: int) -> u32 {
    if elapsed >= duration {
        0
    } else {
        (duration - elapsed) as u32
    }
}

/// Progress of a countdown in permyriad (hundredths of a percent): zero when
/// the duration is zero, else `elapsed / duration` scaled by ten thousand and
/// rounded down. Not clamped above ten thousand: elapsed time beyond the
/// duration reports progress beyond one hundred percent.
pub open spec fn spec_progress_permyriad(elapsed: int, duration: u32) -> int {
    if duration == 0 {
        0
    } else {
        elapsed * 10000 / (duration as int)
    }
}

/// The one-step phase transition: a completed Focus moves to Break, a
/// completed Break or MicroBreak moves back to Focus, and nothing moves while
/// the current phase is not completed.
pub open spec fn spec_next_phase(phase: TimerState, completed: bool) -> TimerState {
    match (phase, completed) {
        (TimerState::Focus, true) => TimerState::Break,
        (TimerState::Break, true) => TimerState::Focus,
        (TimerState::MicroBreak, true) => TimerState::Focus,
        (p, false) => p,
    }
}

/// The advised polling interval in milliseconds for a given remaining time:
/// finer as the countdown nears zero, coarser far from it.
pub open spec fn spec_update_interval(remaining: u32) -> u32 {
    if remaining <= 60 {
        100
    } else if remaining <= 300 {
        500
    } else if remaining <= 1800 {
        1000
    } else {
        2000
    }
}

/// What a pause does: it leaves the engine state unchanged and returns the
/// cached remaining time.
pub open spec fn spec_pause(m: TimerModel) -> (TimerModel, u32) {
    (m, m.remaining)
}

/// One timer's state. The engine never reads a clock: each time-dependent
/// operation takes the caller's millisecond clock reading (`now_ms`), which
/// must not lie before the anchor recorded at the last re-anchoring call.
pub struct TimerCalculator {
    start_time: u64,
    duration: u32,
    current_time: u32,
    state: TimerState,
}

impl View for TimerCalculator {
    type V = TimerModel;

    closed spec fn view(&self) -> TimerModel {
        TimerModel {
            start_ms: self.start_time,
            duration: self.duration,
            remaining: self.current_time,
            phase: self.state,
        }
    }
}

/// A point-in-time result of one update: remaining time (twice, as `time` and
/// `remaining`), its `MM:SS` rendering, progress in permyriad, and the phase.
pub struct TimerCalculation {
    pub time: u32,
    pub formatted_time: String,
    pub progress: u128,
    pub remaining: u32,
    pub state: TimerState,
}

impl TimerCalculator {
    /// The cached remaining time never exceeds the configured duration.
    pub open spec fn wf(&self) -> bool {
        self@.remaining <= self@.duration
    }

    /// Starts a countdown of `duration` seconds in phase `state`, anchored at
    /// the clock reading `now_ms`. A duration of zero is legal and yields an
    /// immediately expired timer.
    pub fn new(duration: u32, state: TimerState, now_ms: u64) -> (t: TimerCalculator)
        ensures
            t@.start_ms == now_ms,
            t@.duration == duration,
            t@.remaining == duration,
            t@.phase == state,
            t.wf(),
    {
        TimerCalculator { start_time: now_ms, duration, current_time: duration, state }
    }

    /// Recomputes the remaining time from the clock reading `now_ms`, caches
    /// it, and returns a fresh snapshot. Never changes the phase, the anchor
    /// or the duration.
    pub fn update(&mut self, now_ms: u64) -> (snap: TimerCalculation)
        requires
            now_ms >= old(self)@.start_ms,
        ensures
            final(self)@.start_ms == old(self)@.start_ms,
            final(self)@.duration == old(self)@.duration,
            final(self)@.phase == old(self)@.phase,
            final(self)@.remaining == spec_remaining(
                old(self)@.duration,
                spec_elapsed_secs(old(self)@.start_ms, now_ms),
            ),
            final(self).wf(),
            snap.time == final(self)@.remaining,
            snap.remaining == final(self)@.remaining,
            snap.formatted_time@ == spec_mmss(final(self)@.remaining as nat),
            snap.progress == spec_progress_permyriad(
                spec_elapsed_secs(old(self)@.start_ms, now_ms),
                old(self)@.duration,
            ),
            snap.state == old(self)@.phase,
    {
        let elapsed: u64 = (now_ms - self.start_time) / 1000;
        self.current_time = if elapsed >= self.duration as u64 {
            0
        } else {
            self.duration - elapsed as u32
        };
        TimerCalculation {
            time: self.current_time,
            formatted_time: format_duration(self.current_time),
            progress: self.calculate_progress(elapsed),
            remaining: self.current_time,
            state: self.state,
        }
    }

    /// Abandons the current countdown: re-anchors at `now_ms` and starts a
    /// fresh countdown of `new_duration` seconds in phase `new_state`.
    pub fn reset(&mut self, new_duration: u32, new_state: TimerState, now_ms: u64)
        ensures
            final(self)@.start_ms == now_ms,
            final(self)@.duration == new_duration,
            final(self)@.remaining == new_duration,
            final(self)@.phase == new_state,
            final(self).wf(),
    {
        self.start_time = now_ms;
        self.duration = new_duration;
        self.current_time = new_duration;
        self.state = new_state;
    }

    /// Returns the cached remaining time without consulting any clock, and
    /// leaves the engine entirely unchanged.
    pub fn pause(&mut self) -> (r: u32)
        ensures
            *final(self) == *old(self),
            (final(self)@, r) == spec_pause(old(self)@),
    {
        self.current_time
    }

    /// Continues after a pause: re-anchors at `now_ms` and starts a fresh
    /// countdown of `remaining_time` seconds. The phase is left unchanged.
    pub fn resume(&mut self, remaining_time: u32, now_ms: u64)
        ensures
            final(self)@.start_ms == now_ms,
            final(self)@.duration == remaining_time,
            final(self)@.remaining == remaining_time,
            final(self)@.phase == old(self)@.phase,
            final(self).wf(),
    {
        self.start_time = now_ms;
        self.duration = remaining_time;
        self.current_time = remaining_time;
    }

    /// Renders any number of seconds as zero-padded `MM:SS`.
    pub fn calculate_formatted_time(&self, seconds: u32) -> (r: String)
        ensures
            r@ == spec_mmss(seconds as nat),
    {
        self.format_time(seconds)
    }

    /// Progress of `current` against `total` in permyriad (hundredths of a
    /// percent): zero when `total` is zero, else `current / total` scaled by
    /// ten thousand, rounded down and not clamped above ten thousand.
    pub fn calculate_progress_percentage(&self, current: u32, total: u32) -> (p: u128)
        ensures
            p == spec_progress_permyriad(current as int, total),
    {
        if total == 0 {
            0
        } else {
            (current as u128) * 10000 / (total as u128)
        }
    }

    /// Progress of each given time against this engine's configured duration,
    /// in permyriad, element-wise and order-preserving.
    pub fn batch_calculate_progress(&self, times: Vec<u32>) -> (r: Vec<u128>)
        ensures
            r@.len() == times@.len(),
            forall|i: int|
                0 <= i < times@.len() ==> #[trigger] r@[i] == spec_progress_permyriad(
                    times@[i] as int,
                    self@.duration,
                ),
    {
        let mut r: Vec<u128> = Vec::new();
        let mut idx: usize = 0;
        while idx < times.len()
            invariant
                idx <= times@.len(),
                r@.len() == idx,
                forall|i: int|
                    0 <= i < idx ==> #[trigger] r@[i] == spec_progress_permyriad(
                        times@[i] as int,
                        self@.duration,
                    ),
            decreases times@.len() - idx,
        {
            let p = self.calculate_progress_percentage(times[idx], self.duration);
            r.push(p);
            idx = idx + 1;
        }
        r
    }

    /// True exactly when the whole-second elapsed time at `now_ms` differs
    /// from the caller's last reported value, so a redraw would show a new
    /// second count.
    pub fn optimize_display_update(&self, last_update: u32, now_ms: u64) -> (changed: bool)
        requires
            now_ms >= self@.start_ms,
        ensures
            changed == (spec_elapsed_secs(self@.start_ms, now_ms) != last_update as int),
    {
        let elapsed: u64 = (now_ms - self.start_time) / 1000;
        elapsed != last_update as u64
    }

    /// The phase that follows this engine's phase under the one-step
    /// transition table. Pure: the engine itself is not changed.
    pub fn calculate_next_state(&self, completed: bool) -> (next: TimerState)
        ensures
            next == spec_next_phase(self@.phase, completed),
    {
        match self.state {
            TimerState::Focus if completed => TimerState::Break,
            TimerState::Break if completed => TimerState::Focus,
            TimerState::MicroBreak if completed => TimerState::Focus,
            _ => self.state,
        }
    }

    /// The advised polling interval in milliseconds for the cached remaining
    /// time: 100 up to one minute left, 500 up to five minutes, 1000 up to
    /// thirty minutes, 2000 beyond.
    pub fn get_optimal_update_interval(&self) -> (ms: u32)
        ensures
            ms == spec_update_interval(self@.remaining),
    {
        if self.current_time <= 60 {
            100
        } else if self.current_time <= 300 {
            500
        } else if self.current_time <= 1800 {
            1000
        } else {
            2000
        }
    }

    /// Zero-padded `MM:SS` of a number of seconds.
    fn format_time(&self, seconds: u32) -> (r: String)
        ensures
            r@ == spec_mmss(seconds as nat),
    {
        format_duration(seconds)
    }

    /// Progress of an elapsed time against this engine's duration, in
    /// permyriad.
    fn calculate_progress(&self, elapsed: u64) -> (p: u128)
        ensures
            p == spec_progress_permyriad(elapsed as int, self@.duration),
    {
        if self.duration == 0 {
            0
        } else {
            (elapsed as u128) * 10000 / (self.duration as u128)
        }
    }
}

/// A freshly anchored countdown still reports its full duration: within the
/// first second after the anchor the whole-second elapsed time is zero, so
/// the remaining time equals the configured duration (and the snapshot's
/// `MM:SS` string therefore renders the whole duration).
pub proof fn lemma_fresh_timer_reports_full_duration(duration: u32, anchor_ms: u64, now_ms: u64)
    requires
        anchor_ms <= now_ms,
        now_ms - anchor_ms < 1000,
    ensures
        spec_elapsed_secs(anchor_ms, now_ms) == 0,
        spec_remaining(duration, spec_elapsed_secs(anchor_ms, now_ms)) == duration,
{
}

/// Elapsed time at or beyond the configured duration saturates: the remaining
/// time is exactly zero, never negative or wrapped.
pub proof fn lemma_remaining_saturates(duration: u32, elapsed: int)
    requires
        elapsed >= duration,
    ensures
        spec_remaining(duration, elapsed) == 0,
{
}

/// Pausing twice in a row, with no update in between, returns the same value
/// both times: a pause leaves the engine state unchanged and only reads the
/// cached remaining time.
pub proof fn lemma_pause_idempotent(m: TimerModel)
    ensures
        spec_pause(spec_pause(m).0).1 == spec_pause(m).1,
        spec_pause(spec_pause(m).0).0 == spec_pause(m).0,
{
}

} // verus!
