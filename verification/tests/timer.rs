use last_of_pipisenok::timer::{FrameTimer, TimerMode};

const MS: u64 = 1_000_000;

#[test]
fn new_timer_is_at_the_start() {
    let timer = FrameTimer::new(125, TimerMode::Repeating);
    assert_eq!(timer.period_ms, 125);
    assert_eq!(timer.elapsed_ns, 0);
    assert!(!timer.finished());
    assert!(!timer.just_finished());
    assert!(timer.is_valid());
}

#[test]
fn repeating_timer_below_its_period_only_counts_time() {
    let mut timer = FrameTimer::new(125, TimerMode::Repeating);
    timer.tick(100 * MS);
    assert_eq!(timer.elapsed_ns, 100_000_000);
    assert!(!timer.finished());
    assert_eq!(timer.times_finished, 0);
    assert!(!timer.just_finished());
}

#[test]
fn repeating_timer_wraps_at_its_period() {
    let mut timer = FrameTimer::new(125, TimerMode::Repeating);
    timer.tick(125 * MS);
    assert_eq!(timer.elapsed_ns, 0);
    assert!(timer.finished());
    assert_eq!(timer.times_finished, 1);
    assert!(timer.just_finished());
    timer.tick(50 * MS);
    assert_eq!(timer.elapsed_ns, 50_000_000);
    assert!(!timer.finished());
    assert!(!timer.just_finished());
}

#[test]
fn repeating_timer_keeps_the_remainder_and_counts_periods() {
    let mut timer = FrameTimer::new(1000, TimerMode::Repeating);
    timer.tick(1500 * MS);
    assert_eq!(timer.times_finished, 1);
    assert_eq!(timer.elapsed_ns, 500_000_000);
    timer.tick(6000 * MS);
    assert_eq!(timer.times_finished, 6);
    assert_eq!(timer.elapsed_ns, 500_000_000);
    timer.tick(1);
    assert_eq!(timer.times_finished, 0);
    assert_eq!(timer.elapsed_ns, 500_000_001);
    assert!(timer.is_valid());
}

#[test]
fn repeating_timer_without_a_period_finishes_on_every_tick() {
    let mut timer = FrameTimer::new(0, TimerMode::Repeating);
    timer.tick(5);
    assert_eq!(timer.elapsed_ns, 0);
    assert!(timer.finished());
    assert_eq!(timer.times_finished, u32::MAX);
    timer.tick(0);
    assert_eq!(timer.times_finished, u32::MAX);
}

#[test]
fn repeating_timer_cuts_the_count_to_32_bits() {
    let mut timer = FrameTimer::new(1, TimerMode::Repeating);
    timer.tick(4_294_967_296 * MS);
    assert!(timer.finished());
    assert_eq!(timer.times_finished, 0);
    assert!(!timer.just_finished());
    assert_eq!(timer.elapsed_ns, 0);
    let mut other = FrameTimer::new(1, TimerMode::Repeating);
    other.tick(4_294_967_297 * MS + 7);
    assert_eq!(other.times_finished, 1);
    assert_eq!(other.elapsed_ns, 7);
}

#[test]
fn long_period_keeps_nanoseconds_beyond_64_bits() {
    let mut timer = FrameTimer::new(u64::MAX, TimerMode::Repeating);
    timer.tick(u64::MAX);
    timer.tick(u64::MAX);
    assert_eq!(timer.elapsed_ns, 2 * (u64::MAX as u128));
    assert_eq!(timer.times_finished, 0);
    assert!(timer.is_valid());
}

#[test]
fn one_shot_timer_stops_at_its_period() {
    let mut timer = FrameTimer::new(1000, TimerMode::Once);
    timer.tick(250 * MS);
    assert_eq!(timer.elapsed_ns, 250_000_000);
    assert!(!timer.finished());
    timer.tick(1500 * MS);
    assert!(timer.finished());
    assert!(timer.just_finished());
    assert_eq!(timer.times_finished, 1);
    assert_eq!(timer.elapsed_ns, 1_000_000_000);
    timer.tick(500 * MS);
    assert!(timer.finished());
    assert!(!timer.just_finished());
    assert_eq!(timer.times_finished, 0);
    assert_eq!(timer.elapsed_ns, 1_000_000_000);
}

#[test]
fn one_shot_timer_without_a_period_finishes_at_once() {
    let mut timer = FrameTimer::new(0, TimerMode::Once);
    timer.tick(0);
    assert!(timer.finished());
    assert_eq!(timer.times_finished, 1);
    assert_eq!(timer.elapsed_ns, 0);
}

#[test]
fn timer_with_too_much_elapsed_time_is_not_valid() {
    let timer = FrameTimer {
        mode: TimerMode::Repeating,
        period_ms: 1,
        elapsed_ns: 1_000_001,
        finished: false,
        times_finished: 0,
    };
    assert!(!timer.is_valid());
}
