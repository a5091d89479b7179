use rust_embedded::debounce::Debouncer;
use rust_embedded::duration::Duration;
use rust_embedded::duration_from_ticks::DurationFromTicks;
use rust_embedded::i64_divider::{I64Divider, U64Divider};
use rust_embedded::uptime::Uptime;

const ONE_SECOND: i64 = 1 << 32;

fn at(millis: i32) -> Uptime {
    Uptime::epoch() + Duration::from_millis(millis)
}

/// Exact reference conversion via 128-bit arithmetic.
fn expected_ticks(total_ticks: u64, frequency: u32) -> i64 {
    (((total_ticks as u128) << 32) / (frequency as u128)) as i64
}

// ---- debouncer ----

#[test]
fn starts_confirmed_inactive() {
    let debouncer = Debouncer::new(Duration::from_millis(20), Duration::from_millis(20));
    assert!(!debouncer.is_active());
}

#[test]
fn confirms_active_once_the_threshold_elapses() {
    let mut debouncer = Debouncer::new(Duration::from_millis(20), Duration::from_millis(20));
    debouncer.poll(at(0), true);
    assert!(!debouncer.is_active());
    debouncer.poll(at(19), true);
    assert!(!debouncer.is_active());
    debouncer.poll(at(20), true);
    assert!(debouncer.is_active());
}

#[test]
fn a_bounce_before_the_threshold_resets_the_wait() {
    let mut debouncer = Debouncer::new(Duration::from_millis(20), Duration::from_millis(20));
    debouncer.poll(at(0), true);
    assert!(!debouncer.is_active());
    debouncer.poll(at(10), false);
    assert!(!debouncer.is_active());
    debouncer.poll(at(10), true);
    assert!(!debouncer.is_active());
    debouncer.poll(at(29), true);
    assert!(!debouncer.is_active());
    debouncer.poll(at(30), true);
    assert!(debouncer.is_active());
}

#[test]
fn confirms_inactive_once_the_threshold_elapses() {
    let mut debouncer = Debouncer::new(Duration::from_millis(20), Duration::from_millis(30));
    debouncer.poll(at(0), true);
    debouncer.poll(at(20), true);
    assert!(debouncer.is_active());

    debouncer.poll(at(20), false);
    assert!(debouncer.is_active());
    debouncer.poll(at(49), false);
    assert!(debouncer.is_active());
    debouncer.poll(at(50), false);
    assert!(!debouncer.is_active());
}

#[test]
fn a_bounce_before_the_threshold_resets_the_wait_to_inactive() {
    let mut debouncer = Debouncer::new(Duration::from_millis(20), Duration::from_millis(30));
    debouncer.poll(at(0), true);
    debouncer.poll(at(20), true);
    assert!(debouncer.is_active());

    debouncer.poll(at(20), false);
    assert!(debouncer.is_active());
    debouncer.poll(at(30), true);
    assert!(debouncer.is_active());
    debouncer.poll(at(30), false);
    assert!(debouncer.is_active());
    debouncer.poll(at(59), false);
    assert!(debouncer.is_active());
    debouncer.poll(at(60), false);
    assert!(!debouncer.is_active());
}

#[test]
fn confirms_inactive_using_its_own_threshold() {
    let mut debouncer = Debouncer::new(Duration::from_millis(5), Duration::from_millis(50));
    debouncer.poll(at(0), true);
    assert!(!debouncer.is_active());
    debouncer.poll(at(5), true);
    assert!(debouncer.is_active());
    debouncer.poll(at(5), false);
    assert!(debouncer.is_active());
    debouncer.poll(at(54), false);
    assert!(debouncer.is_active());
    debouncer.poll(at(55), false);
    assert!(!debouncer.is_active());
}

#[test]
fn a_single_observation_never_confirms_a_change_with_a_positive_threshold() {
    let mut debouncer = Debouncer::new(Duration::from_millis(1), Duration::from_millis(1));
    debouncer.poll(at(100), true);
    assert!(!debouncer.is_active());
}

#[test]
fn a_zero_threshold_confirms_on_the_next_poll_not_the_first() {
    let mut debouncer = Debouncer::new(Duration::new(0), Duration::new(0));
    debouncer.poll(at(7), true);
    assert!(!debouncer.is_active());
    debouncer.poll(at(7), true);
    assert!(debouncer.is_active());
    debouncer.poll(at(7), false);
    assert!(debouncer.is_active());
    debouncer.poll(at(7), false);
    assert!(!debouncer.is_active());
}

// ---- duration ----

#[test]
fn seconds_and_fraction_for_positive_values() {
    let d = Duration::new(ONE_SECOND + (1 << 31));
    assert_eq!(d.seconds(), 1);
    assert_eq!(d.fraction(), 1 << 31);
}

#[test]
fn seconds_and_fraction_for_zero() {
    let d = Duration::new(0);
    assert_eq!(d.seconds(), 0);
    assert_eq!(d.fraction(), 0);
}

#[test]
fn seconds_rounds_down_for_negative_values() {
    let d = Duration::new(-1);
    assert_eq!(d.seconds(), -1);
    assert_eq!(d.fraction(), u32::MAX);

    let d = Duration::new(-ONE_SECOND);
    assert_eq!(d.seconds(), -1);
    assert_eq!(d.fraction(), 0);
}

#[test]
fn addition() {
    let a = Duration::new(ONE_SECOND);
    let b = Duration::new(1 << 31);
    assert_eq!(a + b, Duration::new(ONE_SECOND + (1 << 31)));
}

#[test]
fn subtraction() {
    let a = Duration::new(ONE_SECOND);
    let b = Duration::new(1 << 31);
    assert_eq!(a - b, Duration::new(ONE_SECOND - (1 << 31)));
}

#[test]
fn multiplication_by_constant() {
    let a = Duration::new(ONE_SECOND + (1 << 31));
    assert_eq!(a * 3, Duration::new(3 * (ONE_SECOND + (1 << 31))));
}

#[test]
fn duration_fraction_as_millis_micros_nanos_for_half_second() {
    let d = Duration::new(1 << 31);
    assert_eq!(d.fraction_as_millis(), 500);
    assert_eq!(d.fraction_as_micros(), 500_000);
    assert_eq!(d.fraction_as_nanos(), 500_000_000);
}

#[test]
fn fraction_as_millis_micros_nanos_for_zero() {
    let d = Duration::new(0);
    assert_eq!(d.fraction_as_millis(), 0);
    assert_eq!(d.fraction_as_micros(), 0);
    assert_eq!(d.fraction_as_nanos(), 0);
}

#[test]
fn fraction_as_millis_micros_nanos_round_down_just_under_a_second() {
    let d = Duration::new(-1);
    assert_eq!(d.fraction_as_millis(), 999);
    assert_eq!(d.fraction_as_micros(), 999_999);
    assert_eq!(d.fraction_as_nanos(), 999_999_999);
}

#[test]
fn divide_by_i64_divider_built_from_a_u64_divider() {
    let divider = I64Divider::from(U64Divider::new(3));
    let d = Duration::new(3 * ONE_SECOND + 1);
    assert_eq!(d.divide(&divider), Duration::new((3 * ONE_SECOND + 1) / 3));
}

#[test]
fn divide_by_i64_divider_positive() {
    let divider = I64Divider::new(3u32);
    let d = Duration::new(3 * ONE_SECOND + 1);
    assert_eq!(d.divide(&divider), Duration::new((3 * ONE_SECOND + 1) / 3));
}

#[test]
fn divide_by_i64_divider_negative() {
    let divider = I64Divider::new(3u32);
    let d = Duration::new(-(3 * ONE_SECOND + 1));
    assert_eq!(d.divide(&divider), Duration::new(-(3 * ONE_SECOND + 1) / 3));
}

#[test]
fn duration_raw_round_trips_through_new() {
    assert_eq!(Duration::new(1_234_567_890).raw(), 1_234_567_890);
    assert_eq!(Duration::new(-1).raw(), -1);
}

#[test]
fn from_seconds_matches_whole_seconds() {
    assert_eq!(Duration::from_seconds(5).seconds(), 5);
    assert_eq!(Duration::from_seconds(5).fraction(), 0);
    assert_eq!(Duration::from_seconds(-5).seconds(), -5);
    assert_eq!(Duration::from_seconds(0), Duration::new(0));
}

#[test]
fn from_millis_2000_is_two_seconds() {
    assert_eq!(Duration::from_millis(2000), Duration::from_seconds(2));
}

#[test]
fn from_millis_micros_nanos_for_half_second() {
    let half_second = Duration::new(1 << 31);
    assert_eq!(Duration::from_millis(500), half_second);
    assert_eq!(Duration::from_micros(500_000), half_second);
    assert_eq!(Duration::from_nanos(500_000_000), half_second);
}

#[test]
fn from_millis_splits_into_seconds_and_a_sub_second_remainder() {
    for ms in [0, 1, 500, 999, 1_500, 12_345] {
        let d = Duration::from_millis(ms);
        assert_eq!(d.seconds(), ms / 1_000);
        let remainder = (ms % 1_000) as u32;
        let got = d.fraction_as_millis();
        assert!(got == remainder || got + 1 == remainder, "ms={ms} got={got}");
    }
}

#[test]
fn from_units_round_toward_zero_for_negative_counts() {
    // -1 ms is -4294967.296 raw units: truncated toward zero.
    assert_eq!(Duration::from_millis(-1).raw(), -4_294_967);
    assert_eq!(Duration::from_micros(-1).raw(), -4_294);
    assert_eq!(Duration::from_nanos(-1).raw(), -4);
}

#[test]
fn ticks_is_the_raw_value() {
    assert_eq!(Duration::new(-42).ticks(), -42);
}

#[test]
fn durations_compare_by_raw_value() {
    assert!(Duration::new(-1) < Duration::new(0));
    assert!(Duration::from_seconds(2) > Duration::from_millis(1_999));
}

// ---- uptime ----

#[test]
fn epoch_is_zero() {
    let u = Uptime::epoch();
    assert_eq!(u.seconds(), 0);
    assert_eq!(u.fraction(), 0);
}

#[test]
fn addition_of_a_duration() {
    let u = Uptime::epoch() + Duration::new(ONE_SECOND + (1 << 31));
    assert_eq!(u.seconds(), 1);
    assert_eq!(u.fraction(), 1 << 31);
}

#[test]
fn subtraction_of_a_duration() {
    let u = (Uptime::epoch() + Duration::new(2 * ONE_SECOND)) - Duration::new(ONE_SECOND);
    assert_eq!(u.seconds(), 1);
    assert_eq!(u.fraction(), 0);
}

#[test]
fn subtraction_of_two_uptimes_gives_the_elapsed_duration() {
    let earlier = Uptime::epoch() + Duration::new(ONE_SECOND);
    let later = Uptime::epoch() + Duration::new(3 * ONE_SECOND);
    assert_eq!(later - earlier, Duration::new(2 * ONE_SECOND));
    assert_eq!(earlier - later, Duration::new(-2 * ONE_SECOND));
}

#[test]
fn uptime_fraction_as_millis_micros_nanos_for_half_second() {
    let u = Uptime::epoch() + Duration::new(1 << 31);
    assert_eq!(u.fraction_as_millis(), 500);
    assert_eq!(u.fraction_as_micros(), 500_000);
    assert_eq!(u.fraction_as_nanos(), 500_000_000);
}

#[test]
fn adding_then_subtracting_a_duration_gives_back_the_uptime() {
    let start = Uptime::epoch() + Duration::from_millis(1_234);
    let d = Duration::from_micros(-56_789);
    assert_eq!((start + d) - d, start);
    assert_eq!((start + d) - start, d);
}

// ---- dividers ----

#[test]
fn i64_new_from_existing_u64_divider() {
    let u64_divider = U64Divider::new(7);
    let i64_divider = I64Divider::new(u64_divider);
    assert_eq!(i64_divider.divide(-100), -100 / 7);
}

#[test]
fn u64_divider_is_exact_at_the_extremes() {
    for divisor in [2u32, 3, 7, 1_000_000, 1_328_125, u32::MAX] {
        let divider = U64Divider::new(divisor);
        for n in [0u64, 1, divisor as u64 - 1, divisor as u64, u64::MAX - 1, u64::MAX] {
            assert_eq!(divider.divide(n), n / divisor as u64, "{n} / {divisor}");
        }
    }
}

#[test]
fn i64_divider_rounds_toward_zero_at_the_extremes() {
    for divisor in [2u32, 3, 1_000, u32::MAX] {
        let divider = I64Divider::new(divisor);
        for n in [i64::MIN, i64::MIN + 1, -1, 0, 1, i64::MAX] {
            assert_eq!(divider.divide(n), n / divisor as i64, "{n} / {divisor}");
        }
    }
}

// ---- duration from ticks ----

#[test]
fn large_tick_counts_at_a_high_frequency() {
    let mut clock = DurationFromTicks::new(1_000_000);
    for now_ticks in [0, 15_624, 15_625, 15_626, 1_000_000, u32::MAX] {
        clock.advance_to(now_ticks);
        assert_eq!(clock.now().ticks(), expected_ticks(now_ticks as u64, 1_000_000));
    }
}

#[test]
fn now_error_bounded_by_two_ticks_at_170mhz() {
    let frequency: u32 = 170_000_000;
    let quantum_ticks = frequency >> frequency.trailing_zeros();

    for now_ticks in [
        0,
        1,
        quantum_ticks / 2,
        quantum_ticks - 1,
        quantum_ticks,
        quantum_ticks + 1,
        quantum_ticks.saturating_mul(3),
        u32::MAX,
    ] {
        let mut clock = DurationFromTicks::new(frequency);
        clock.advance_to(now_ticks);
        let diff = expected_ticks(now_ticks as u64, frequency) - clock.now().ticks();
        assert!(diff.unsigned_abs() <= 2, "now_ticks={now_ticks} diff={diff}");
    }
}

#[test]
fn now_matches_exact_conversion_across_frequencies() {
    for frequency in [2u32, 6, 1 << 20, 1_000_000, 999_998, 4_294_967_294] {
        let quantum_ticks = frequency >> frequency.trailing_zeros();
        for now_ticks in [
            0,
            1,
            2,
            quantum_ticks.saturating_sub(1),
            quantum_ticks,
            quantum_ticks.saturating_add(1),
            quantum_ticks.saturating_mul(3),
        ] {
            let mut clock = DurationFromTicks::new(frequency);
            clock.advance_to(now_ticks);
            assert_eq!(
                clock.now().ticks(),
                expected_ticks(now_ticks as u64, frequency),
                "frequency={frequency} now_ticks={now_ticks}"
            );
        }
    }
}

#[test]
fn advance_by_accumulates_across_multiple_calls() {
    let mut clock = DurationFromTicks::new(1_000_000);
    clock.advance_by(500_000);
    clock.advance_by(500_000);
    assert_eq!(clock.now().ticks(), expected_ticks(1_000_000, 1_000_000));
}

#[test]
fn advance_to_matches_equivalent_advance_by_from_a_fresh_clock() {
    let mut via_advance_to = DurationFromTicks::new(1_000_000);
    via_advance_to.advance_to(1_234_567);

    let mut via_advance_by = DurationFromTicks::new(1_000_000);
    via_advance_by.advance_by(1_234_567);

    assert_eq!(via_advance_to.now(), via_advance_by.now());
}

#[test]
fn advance_to_follows_the_hardware_counter_through_wraparound() {
    let mut clock = DurationFromTicks::new(1_000_000);
    clock.advance_to(u32::MAX - 10);
    clock.advance_to(9);

    let total_ticks = (u32::MAX as u64 - 10) + 20;
    assert_eq!(clock.now().ticks(), expected_ticks(total_ticks, 1_000_000));
}

#[test]
fn time_at_reads_ahead_without_moving_the_converter() {
    let mut clock = DurationFromTicks::new(1_000_000);
    clock.advance_to(100);
    let ahead = clock.time_at(600);
    assert_eq!(ahead.ticks(), expected_ticks(600, 1_000_000));
    assert_eq!(clock.now().ticks(), expected_ticks(100, 1_000_000));
}

#[test]
fn readings_do_not_drift_however_the_ticks_are_split() {
    for frequency in [2u32, 6, 1 << 20, 1_000_000, 999_998, 4_294_967_294] {
        let mut split = DurationFromTicks::new(frequency);
        let mut whole = DurationFromTicks::new(frequency);
        for delta in [1u32, 7, 1_000, 65_537, 3] {
            split.advance_by(delta);
        }
        whole.advance_by(1 + 7 + 1_000 + 65_537 + 3);
        assert_eq!(split.now(), whole.now());
        let exact = ((66_548u128 << 32) / frequency as u128) as i64;
        assert_eq!(split.now().raw(), exact);
    }
}

#[test]
fn the_confirmed_value_is_the_last_confirmed_reading() {
    let ms = |n: i32| Uptime::epoch() + Duration::from_millis(n);
    let mut debouncer = Debouncer::new(Duration::from_millis(20), Duration::from_millis(30));
    // Pressed long enough: confirmed true.
    debouncer.poll(ms(0), true);
    debouncer.poll(ms(20), true);
    assert!(debouncer.is_active());
    // A short release is not confirmed, and a pressed reading cancels it.
    debouncer.poll(ms(25), false);
    debouncer.poll(ms(40), true);
    debouncer.poll(ms(60), false);
    assert!(debouncer.is_active());
    // Released long enough: confirmed false.
    debouncer.poll(ms(90), false);
    assert!(!debouncer.is_active());
}
