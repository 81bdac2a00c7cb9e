use embassy_embedded_time::scale::elapsed_ticks_to_micros;
use embassy_embedded_time::{
    ClockError, EmbassyClock, TickInstant, SCALING_FACTOR_DENOMINATOR, SCALING_FACTOR_NUMERATOR,
};

#[test]
fn scaling_factor_is_one_microsecond() {
    assert_eq!(SCALING_FACTOR_NUMERATOR, 1);
    assert_eq!(SCALING_FACTOR_DENOMINATOR, 1_000_000);
}

#[test]
fn zero_at_start_on_mock_timebase() {
    let clock = EmbassyClock::with_epoch(10_000, 1_000_000);
    let t = clock.query_at(10_000).unwrap();
    assert_eq!(t, TickInstant { ticks: 0 });
}

#[test]
fn query_floors_to_whole_microseconds() {
    // 4 ticks at 3 ticks per second are 1_333_333.3... microseconds.
    let clock = EmbassyClock::with_epoch(0, 3);
    let t = clock.query_at(4).unwrap();
    assert_eq!(t.ticks, 1_333_333);
}

#[test]
fn scale_exact_five_seconds_at_native_microsecond_rate() {
    let clock = EmbassyClock::with_epoch(2_500, 1_000_000);
    let t1 = clock.query_at(9_000).unwrap();
    // Advance the mock timebase by exactly 5_000_000 microseconds.
    let t2 = clock.query_at(9_000 + 5_000_000).unwrap();
    assert_eq!(t2.ticks - t1.ticks, 5_000_000);
}

#[test]
fn scale_exact_five_seconds_at_four_megahertz() {
    // 5_000_000 microseconds are 20_000_000 ticks at 4_000_000 ticks/s.
    let clock = EmbassyClock::with_epoch(777, 4_000_000);
    let t1 = clock.query_at(1_000_000).unwrap();
    let t2 = clock.query_at(1_000_000 + 20_000_000).unwrap();
    assert_eq!(t2.ticks - t1.ticks, 5_000_000);
}

#[test]
fn monotonic_on_mock_timebase() {
    let clock = EmbassyClock::with_epoch(100, 32_768);
    let t1 = clock.query_at(5_000).unwrap();
    let t2 = clock.query_at(5_001).unwrap();
    let t3 = clock.query_at(90_000).unwrap();
    assert!(t1.ticks <= t2.ticks);
    assert!(t2.ticks <= t3.ticks);
}

#[test]
fn repeated_queries_are_stable_and_mutate_nothing() {
    let clock = EmbassyClock::with_epoch(42, 1_000_000);
    let epoch_before = clock.epoch_ticks();
    let mut last = clock.query_at(1_042).unwrap();
    for _ in 0..5 {
        let next = clock.query_at(1_042).unwrap();
        assert_eq!(next, last);
        last = next;
    }
    assert_eq!(last.ticks, 1_000);
    assert_eq!(clock.epoch_ticks(), epoch_before);
    assert_eq!(clock.epoch_ticks(), 42);
}

#[test]
fn instances_have_independent_epochs() {
    // Same timebase, epochs 3_000 ticks apart, read at the same sample:
    // at 1_000_000 ticks/s the counts differ by exactly 3_000 microseconds.
    let early = EmbassyClock::with_epoch(1_000, 1_000_000);
    let late = EmbassyClock::with_epoch(4_000, 1_000_000);
    let t_early = early.query_at(10_000).unwrap();
    let t_late = late.query_at(10_000).unwrap();
    assert_eq!(t_early.ticks - t_late.ticks, 3_000);
}

#[test]
fn instance_difference_tolerates_one_microsecond_of_rounding() {
    // At 3 ticks/s the two fractional parts add past one whole microsecond,
    // so the difference overshoots the span between the epochs by exactly 1.
    let early = EmbassyClock::with_epoch(0, 3);
    let late = EmbassyClock::with_epoch(2, 3);
    let t_early = early.query_at(4).unwrap();
    let t_late = late.query_at(4).unwrap();
    let span = elapsed_ticks_to_micros(2, 3);
    assert_eq!(span, 666_666);
    assert_eq!(t_early.ticks - t_late.ticks, span + 1);
}

#[test]
fn overflowing_span_wraps_modulo_two_to_the_64() {
    // At 1 tick/s a span of u64::MAX ticks is (2^64 - 1) * 10^6 microseconds,
    // which wraps to 2^64 - 10^6.
    let clock = EmbassyClock::with_epoch(0, 1);
    let t = clock.query_at(u64::MAX).unwrap();
    assert_eq!(t.ticks, 18_446_744_073_708_551_616);
}

#[test]
fn widest_representable_span_is_exact() {
    // At the native microsecond rate even the widest span fits exactly.
    let clock = EmbassyClock::with_epoch(0, 1_000_000);
    let t = clock.query_at(u64::MAX).unwrap();
    assert_eq!(t.ticks, u64::MAX);
}

#[test]
fn sample_before_epoch_reports_unavailable() {
    let clock = EmbassyClock::with_epoch(500, 1_000_000);
    assert_eq!(clock.query_at(499), Err(ClockError::Unavailable));
    assert_eq!(clock.query_at(0), Err(ClockError::Unavailable));
}

#[test]
fn conversion_handles_fast_timebases() {
    // 10^9 ticks/s: one tick is a nanosecond; 1234 ticks floor to 1 microsecond.
    assert_eq!(elapsed_ticks_to_micros(1_234, 1_000_000_000), 1);
    assert_eq!(elapsed_ticks_to_micros(0, 1_000_000_000), 0);
    assert_eq!(elapsed_ticks_to_micros(999, 1_000_000_000), 0);
}

#[test]
fn live_clock_starts_near_zero_and_never_goes_backwards() {
    let clock = EmbassyClock::default();
    let t1 = clock.try_now().unwrap();
    // "Immediately" after construction: well under one second on any host.
    assert!(t1.ticks < 1_000_000);
    let t2 = clock.try_now().unwrap();
    assert!(t2.ticks >= t1.ticks);
    assert!(clock.timebase_ticks_per_second() >= 1);
}

#[test]
fn live_clocks_are_independent() {
    let first = EmbassyClock::new();
    let second = EmbassyClock::new();
    // The later epoch can only be at or after the earlier one.
    assert!(second.epoch_ticks() >= first.epoch_ticks());
    // Sampled at or after the other clock's sample, the clock with the
    // earlier epoch can never report the smaller count.
    let t_second = second.try_now().unwrap();
    let t_first = first.try_now().unwrap();
    assert!(t_first.ticks >= t_second.ticks);
}
