use garmin_export::rate_limiter::{RateLimiter, INTERVAL_NANOS};
use std::time::Duration;

#[test]
fn test_limiter() {
    let mut limiter = RateLimiter::new();

    let start: u64 = 0;
    let mut clock = start;

    clock += limiter.wait(clock);
    assert!(
        Duration::from_nanos(clock - start) < Duration::from_millis(10),
        "should be instantneous"
    );

    clock += limiter.wait(clock);
    assert!(
        Duration::from_nanos(clock - start) > Duration::from_secs(1),
        "should for wait the the preconfigured duration"
    );
}

#[test]
fn first_call_does_not_pause() {
    let mut limiter = RateLimiter::new();
    assert_eq!(limiter.wait(123_456), 0);
}

#[test]
fn second_call_pauses_for_what_is_left_of_the_interval() {
    let mut limiter = RateLimiter::new();
    assert_eq!(limiter.wait(1_000), 0);
    assert_eq!(limiter.wait(1_000), INTERVAL_NANOS);
    // the second call started at 1_000 + INTERVAL_NANOS
    assert_eq!(limiter.wait(1_000 + INTERVAL_NANOS + 500_000_000), 1_500_000_000);
}

#[test]
fn interval_is_two_seconds() {
    assert_eq!(Duration::from_nanos(INTERVAL_NANOS), Duration::from_secs(2));
}

#[test]
fn a_slow_call_adds_no_pause_and_no_backlog() {
    let mut limiter = RateLimiter::new();
    assert_eq!(limiter.wait(0), 0);
    assert_eq!(limiter.wait(INTERVAL_NANOS), 0);
    assert_eq!(limiter.wait(10 * INTERVAL_NANOS), 0);
    assert_eq!(limiter.wait(10 * INTERVAL_NANOS + 1), INTERVAL_NANOS - 1);
}

#[test]
fn a_clock_that_went_back_counts_as_no_time_elapsed() {
    let mut limiter = RateLimiter::new();
    assert_eq!(limiter.wait(5_000_000_000), 0);
    assert_eq!(limiter.wait(4_000_000_000), INTERVAL_NANOS);
}

#[test]
fn recorded_start_is_capped_at_the_end_of_the_clock() {
    let mut limiter = RateLimiter::new();
    assert_eq!(limiter.wait(u64::MAX - 10), 0);
    assert_eq!(limiter.wait(u64::MAX - 5), INTERVAL_NANOS - 5);
    // the start was recorded as u64::MAX
    assert_eq!(limiter.wait(u64::MAX), INTERVAL_NANOS);
}
