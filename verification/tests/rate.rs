use below::rate::{
    count_per_sec, count_per_sec_ceil, get_option_rate, opt_add, opt_multiply, ratio_ceil,
    ratio_floor, usec_pct, Elapsed, Ratio,
};

fn value(ratio: Ratio) -> f64 {
    ratio.num as f64 / ratio.den as f64
}

#[test]
fn opt_add_treats_a_missing_operand_as_zero() {
    assert_eq!(opt_add(Some(3u64), Some(4u64)), Some(7));
    assert_eq!(opt_add(Some(3u64), None), Some(3));
    assert_eq!(opt_add(None, Some(4u64)), Some(4));
    assert_eq!(opt_add::<u64>(None, None), None);
}

#[test]
fn opt_multiply_is_absent_without_both_operands() {
    assert_eq!(opt_multiply(Some(3u64), Some(4u64)), Some(12));
    assert_eq!(opt_multiply::<u64, u64>(Some(3), None), None);
    assert_eq!(opt_multiply::<u64, u64>(None, Some(4)), None);
    assert_eq!(opt_multiply::<u64, u64>(None, None), None);
}

#[test]
fn ratios_add_over_a_common_denominator() {
    let a = Ratio { num: 3, den: 7 };
    let b = Ratio { num: 4, den: 7 };
    assert_eq!(a + b, Ratio { num: 7, den: 7 });
    assert_eq!(opt_add(Some(a), Some(b)), Some(Ratio { num: 7, den: 7 }));
    assert_eq!(opt_add(Some(a), None), Some(a));
}

#[test]
fn ratio_sum_stays_at_the_largest_numerator() {
    let a = Ratio { num: u128::MAX - 1, den: 5 };
    let b = Ratio { num: 2, den: 5 };
    assert_eq!(a + b, Ratio { num: u128::MAX, den: 5 });
}

#[test]
fn ratios_are_weighted_by_a_factor() {
    let a = Ratio { num: 3, den: 7 };
    assert_eq!(a * 512, Ratio { num: 1536, den: 7 });
    assert_eq!(opt_multiply(Some(a), Some(512u64)), Some(Ratio { num: 1536, den: 7 }));
    assert_eq!(opt_multiply(Some(a), None::<u64>), None);
    let big = Ratio { num: u128::MAX / 2, den: 7 };
    assert_eq!(big * 3, Ratio { num: u128::MAX, den: 7 });
}

#[test]
fn rate_of_a_counter_is_growth_over_time() {
    // a = 3, b = 10, d = 7 seconds: one per second.
    let rate = count_per_sec(Some(3), Some(10), Elapsed::from_secs(7)).unwrap();
    assert_eq!(rate, Ratio { num: 7_000_000_000, den: 7_000_000_000 });
    assert!((value(rate) - 1.0).abs() < 1e-9);

    let rate = count_per_sec(Some(100), Some(350), Elapsed { secs: 2, nanos: 500_000_000 }).unwrap();
    assert_eq!(rate, Ratio { num: 250_000_000_000, den: 2_500_000_000 });
    assert!((value(rate) - 100.0).abs() < 1e-9);
}

#[test]
fn regressed_counter_has_no_rate() {
    assert_eq!(count_per_sec(Some(10), Some(3), Elapsed::from_secs(7)), None);
    assert_eq!(usec_pct(Some(10), Some(3), Elapsed::from_secs(7)), None);
    assert_eq!(count_per_sec_ceil(Some(10), Some(3), Elapsed::from_secs(7)), None);
    assert_eq!(get_option_rate(Some(3), Some((Some(10), Elapsed::from_secs(7)))), None);
}

#[test]
fn missing_reading_has_no_rate() {
    let d = Elapsed::from_secs(1);
    assert_eq!(count_per_sec(None, Some(3), d), None);
    assert_eq!(count_per_sec(Some(3), None, d), None);
    assert_eq!(usec_pct(None, Some(3), d), None);
    assert_eq!(usec_pct(Some(3), None, d), None);
    assert_eq!(get_option_rate(Some(3), None), None);
    assert_eq!(get_option_rate(Some(3), Some((None, d))), None);
}

#[test]
fn unchanged_counter_has_rate_zero() {
    let rate = count_per_sec(Some(5), Some(5), Elapsed::from_secs(3)).unwrap();
    assert_eq!(rate, Ratio { num: 0, den: 3_000_000_000 });
    assert_eq!(count_per_sec_ceil(Some(5), Some(5), Elapsed::from_secs(3)), Some(0));
}

#[test]
fn percentage_of_elapsed_microseconds() {
    // Two seconds of CPU time over ten seconds: 20 percent.
    let pct = usec_pct(Some(1_000_000), Some(3_000_000), Elapsed::from_secs(10)).unwrap();
    assert_eq!(pct, Ratio { num: 200_000_000, den: 10_000_000 });
    assert!((value(pct) - 20.0).abs() < 1e-9);

    // Below a microsecond the elapsed time is rounded down.
    let pct = usec_pct(Some(0), Some(1), Elapsed { secs: 0, nanos: 2_999 }).unwrap();
    assert_eq!(pct, Ratio { num: 100, den: 2 });
}

#[test]
fn whole_rates_round_up_or_down() {
    let d = Elapsed::from_secs(3);
    assert_eq!(count_per_sec_ceil(Some(0), Some(10), d), Some(4));
    assert_eq!(count_per_sec_ceil(Some(0), Some(9), d), Some(3));
    assert_eq!(get_option_rate(Some(10), Some((Some(0), d))), Some(3));
    assert_eq!(get_option_rate(Some(9), Some((Some(0), d))), Some(3));
    assert_eq!(ratio_ceil(Ratio { num: 7, den: 2 }), 4);
    assert_eq!(ratio_floor(Ratio { num: 7, den: 2 }), 3);
}

#[test]
fn rates_over_no_time() {
    let none = Elapsed::from_secs(0);
    assert_eq!(count_per_sec(Some(0), Some(5), none), Some(Ratio { num: 5_000_000_000, den: 0 }));
    assert_eq!(count_per_sec_ceil(Some(0), Some(5), none), Some(u64::MAX));
    assert_eq!(count_per_sec_ceil(Some(5), Some(5), none), Some(0));
    assert_eq!(get_option_rate(Some(5), Some((Some(0), none))), Some(u64::MAX));
    assert_eq!(get_option_rate(Some(5), Some((Some(5), none))), Some(0));
}

#[test]
fn whole_rates_stay_within_64_bits() {
    let short = Elapsed { secs: 0, nanos: 1 };
    assert_eq!(count_per_sec_ceil(Some(0), Some(u64::MAX), short), Some(u64::MAX));
    assert_eq!(get_option_rate(Some(u64::MAX), Some((Some(0), short))), Some(u64::MAX));
    assert_eq!(ratio_floor(Ratio { num: u128::MAX, den: 1 }), u64::MAX);
}

#[test]
fn elapsed_time_in_other_units() {
    let d = Elapsed { secs: 2, nanos: 500_000_999 };
    assert_eq!(d.as_nanos(), 2_500_000_999);
    assert_eq!(d.as_micros(), 2_500_000);
    assert_eq!(Elapsed::from_secs(7), Elapsed { secs: 7, nanos: 0 });
    let most = Elapsed { secs: u64::MAX, nanos: u32::MAX };
    assert_eq!(most.as_nanos(), u64::MAX as u128 * 1_000_000_000 + u32::MAX as u128);
}

#[test]
fn elapsed_time_between_clock_readings() {
    assert_eq!(Elapsed::between_micros(1_000_000, 3_500_000), Elapsed { secs: 2, nanos: 500_000_000 });
    assert_eq!(Elapsed::between_micros(5, 5), Elapsed { secs: 0, nanos: 0 });
    // A clock that went back: no time.
    assert_eq!(Elapsed::between_micros(10, 3), Elapsed { secs: 0, nanos: 0 });
    assert_eq!(Elapsed::between_micros(0, u64::MAX).as_micros(), u64::MAX as u128);
}
