use timer_core::batch::{calculate_multiple_timers, optimize_memory_usage};
use timer_core::engine::{TimerCalculator, TimerState};
use timer_core::formatting::format_duration;

/// The fixed-point permyriad progress as the floating percentage a display
/// would show.
fn as_percent(permyriad: u128) -> f64 {
    permyriad as f64 / 100.0
}

#[test]
fn format_duration_examples() {
    assert_eq!(format_duration(125), "02:05");
    assert_eq!(format_duration(0), "00:00");
    assert_eq!(format_duration(3599), "59:59");
}

#[test]
fn format_duration_edges() {
    assert_eq!(format_duration(59), "00:59");
    assert_eq!(format_duration(60), "01:00");
    assert_eq!(format_duration(61), "01:01");
    assert_eq!(format_duration(5999), "99:59");
    // One hundred minutes and more keep all their minute digits.
    assert_eq!(format_duration(6000), "100:00");
    assert_eq!(format_duration(u32::MAX), "71582788:15");
}

#[test]
fn progress_percentage_examples() {
    let t = TimerCalculator::new(0, TimerState::Focus, 0);
    assert_eq!(t.calculate_progress_percentage(0, 100), 0);
    assert_eq!(t.calculate_progress_percentage(50, 100), 5000);
    // Division-by-zero guard: a zero total reports zero progress.
    assert_eq!(t.calculate_progress_percentage(100, 0), 0);
    assert_eq!(as_percent(t.calculate_progress_percentage(0, 100)), 0.0);
    assert_eq!(as_percent(t.calculate_progress_percentage(50, 100)), 50.0);
    assert_eq!(as_percent(t.calculate_progress_percentage(100, 0)), 0.0);
}

#[test]
fn progress_percentage_is_not_clamped() {
    let t = TimerCalculator::new(0, TimerState::Focus, 0);
    assert_eq!(t.calculate_progress_percentage(150, 100), 15000);
    assert_eq!(as_percent(t.calculate_progress_percentage(150, 100)), 150.0);
}

#[test]
fn progress_percentage_rounds_down() {
    let t = TimerCalculator::new(0, TimerState::Focus, 0);
    // 1/3 is 33.33 percent, rounded down at the hundredth.
    assert_eq!(t.calculate_progress_percentage(1, 3), 3333);
}

#[test]
fn batch_progress_examples() {
    let t = TimerCalculator::new(100, TimerState::Focus, 0);
    let r = t.batch_calculate_progress(vec![0, 50, 100]);
    assert_eq!(r, vec![0, 5000, 10000]);
    let percents: Vec<f64> = r.into_iter().map(as_percent).collect();
    assert_eq!(percents, vec![0.0, 50.0, 100.0]);
}

#[test]
fn batch_progress_keeps_order_and_length() {
    let t = TimerCalculator::new(200, TimerState::Focus, 0);
    let r = t.batch_calculate_progress(vec![200, 0, 100, 300]);
    assert_eq!(r, vec![10000, 0, 5000, 15000]);
    let empty = t.batch_calculate_progress(vec![]);
    assert!(empty.is_empty());
}

#[test]
fn memory_budget_examples() {
    assert_eq!(optimize_memory_usage(500), 500);
    assert_eq!(optimize_memory_usage(5000), 4000);
    assert_eq!(optimize_memory_usage(20000), 14000);
}

#[test]
fn memory_budget_boundaries() {
    assert_eq!(optimize_memory_usage(0), 0);
    assert_eq!(optimize_memory_usage(1000), 1000);
    assert_eq!(optimize_memory_usage(1001), 800);
    assert_eq!(optimize_memory_usage(10000), 8000);
    assert_eq!(optimize_memory_usage(10001), 7000);
}

#[test]
fn multiple_timers_stagger_one_second_each() {
    let r = calculate_multiple_timers(vec![100, 50, 3, 1, 0]);
    assert_eq!(r.len(), 5);

    // Position 0: started just now.
    assert_eq!(r[0].remaining, 100);
    assert_eq!(r[0].time, 100);
    assert_eq!(r[0].formatted_time, "01:40");
    assert_eq!(r[0].progress, 0);

    // Position 1: one second elapsed of fifty.
    assert_eq!(r[1].remaining, 49);
    assert_eq!(r[1].formatted_time, "00:49");
    assert_eq!(r[1].progress, 200);

    // Position 2: two seconds elapsed of three.
    assert_eq!(r[2].remaining, 1);
    assert_eq!(r[2].formatted_time, "00:01");
    assert_eq!(r[2].progress, 6666);

    // Position 3: three seconds elapsed of one saturates at zero.
    assert_eq!(r[3].remaining, 0);
    assert_eq!(r[3].formatted_time, "00:00");
    assert_eq!(r[3].progress, 30000);

    // Position 4: a zero duration reports zero progress.
    assert_eq!(r[4].remaining, 0);
    assert_eq!(r[4].progress, 0);

    for snap in &r {
        assert_eq!(snap.state, TimerState::Focus);
    }
}

#[test]
fn memory_budget_of_the_largest_amount() {
    // 4294967295 * 7 / 10, computed without overflowing.
    assert_eq!(optimize_memory_usage(u32::MAX), 3006477106);
}

#[test]
fn multiple_timers_of_nothing() {
    let r = calculate_multiple_timers(vec![]);
    assert!(r.is_empty());
}
