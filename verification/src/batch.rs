//! Stateless helpers beside the engine: a staggered multi-timer preview and a
//! coarse retention-budget heuristic.

use vstd::prelude::*;
use vstd::arithmetic::div_mod::{lemma_div_is_ordered, lemma_div_multiples_vanish};
use crate::engine::{spec_progress_permyriad, spec_remaining, TimerCalculation, TimerState};
use crate::formatting::{format_duration, spec_mmss};

verus! {

/// The retention budget for a given amount of held data: amounts up to one
/// thousand are kept as they are, amounts up to ten thousand are cut to eight
/// tenths, larger amounts to seven tenths (rounding down).
pub open spec fn spec_memory_budget(current: int) -> int {
    if current <= 1000 {
        current
    } else if current <= 10000 {
        current * 8 / 10
    } else {
        current * 7 / 10
    }
}

/// Scaling a non-negative amount by at most ten tenths never enlarges it.
proof fn lemma_scaled_down_fits(m: int, k: int)
    requires
        0 <= m,
        0 <= k <= 10,
    ensures
        0 <= m * k / 10 <= m,
{
    assert(0 <= m * k <= m * 10) by (nonlinear_arith)
        requires
            0 <= m && 0 <= k <= 10,
    ;
    lemma_div_is_ordered(m * k, m * 10, 10);
    lemma_div_multiples_vanish(m, 10);
}

/// A coarse, self-imposed budget signal for how much historical data a caller
/// should keep: unchanged up to one thousand, cut by a fifth up to ten
/// thousand, by three tenths beyond. A policy knob, not a measurement.
pub fn optimize_memory_usage(current_memory: u32) -> (budget: u32)
    ensures
        budget == spec_memory_budget(current_memory as int),
{
    if current_memory <= 1000 {
        current_memory
    } else if current_memory <= 10000 {
        proof {
            lemma_scaled_down_fits(current_memory as int, 8);
        }
        ((current_memory as u64) * 8 / 10) as u32
    } else {
        proof {
            lemma_scaled_down_fits(current_memory as int, 7);
        }
        ((current_memory as u64) * 7 / 10) as u32
    }
}

/// A preview of several timers at once, independent of any engine instance:
/// the timer at position `i` is simulated as having started `i` seconds ago,
/// so its elapsed time is exactly `i`. Remaining time saturates at zero,
/// progress is in permyriad, and every previewed timer reports phase `Focus`.
pub fn calculate_multiple_timers(durations: Vec<u32>) -> (r: Vec<TimerCalculation>)
    ensures
        r@.len() == durations@.len(),
        forall|i: int|
            0 <= i < durations@.len() ==> {
                &&& (#[trigger] r@[i]).time == spec_remaining(durations@[i], i)
                &&& r@[i].remaining == spec_remaining(durations@[i], i)
                &&& r@[i].formatted_time@ == spec_mmss(spec_remaining(durations@[i], i) as nat)
                &&& r@[i].progress == spec_progress_permyriad(i, durations@[i])
                &&& r@[i].state == TimerState::Focus
            },
{
    let mut r: Vec<TimerCalculation> = Vec::new();
    let mut i: usize = 0;
    while i < durations.len()
        invariant
            i <= durations@.len(),
            r@.len() == i,
            forall|j: int|
                0 <= j < i ==> {
                    &&& (#[trigger] r@[j]).time == spec_remaining(durations@[j], j)
                    &&& r@[j].remaining == spec_remaining(durations@[j], j)
                    &&& r@[j].formatted_time@ == spec_mmss(spec_remaining(durations@[j], j) as nat)
                    &&& r@[j].progress == spec_progress_permyriad(j, durations@[j])
                    &&& r@[j].state == TimerState::Focus
                },
        decreases durations@.len() - i,
    {
        let duration = durations[i];
        let elapsed: u64 = i as u64;
        let current_time: u32 = if elapsed >= duration as u64 {
            0
        } else {
            duration - elapsed as u32
        };
        let progress: u128 = if duration == 0 {
            0
        } else {
            (elapsed as u128) * 10000 / (duration as u128)
        };
        let snap = TimerCalculation {
            time: current_time,
            formatted_time: format_duration(current_time),
            progress,
            remaining: current_time,
            state: TimerState::Focus,
        };
        r.push(snap);
        i = i + 1;
    }
    r
}

} // verus!
