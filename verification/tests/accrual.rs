use flowsol::accrual::settle_amount;

#[test]
fn settle_amount_is_rate_times_elapsed() {
    assert_eq!(settle_amount(1_000_000, 100_000_000, 0, 0, 50), 50_000_000);
    assert_eq!(settle_amount(3, 1_000, 0, 10, 17), 21);
    assert_eq!(settle_amount(1, 10, 4, -5, 0), 5);
}

#[test]
fn settle_amount_is_capped_by_the_rest_of_the_deposit() {
    assert_eq!(settle_amount(1_000_000, 100_000_000, 50_000_000, 50, 200), 50_000_000);
    assert_eq!(settle_amount(3, 1_000, 990, 0, 100), 10);
    assert_eq!(settle_amount(3, 1_000, 1_000, 0, 100), 0);
}

#[test]
fn settle_amount_at_the_cap_exactly() {
    assert_eq!(settle_amount(10, 100, 0, 0, 10), 100);
    assert_eq!(settle_amount(10, 100, 0, 0, 9), 90);
    assert_eq!(settle_amount(10, 100, 0, 0, 11), 100);
}

#[test]
fn settle_amount_is_zero_when_no_time_has_passed() {
    assert_eq!(settle_amount(1_000_000, 100_000_000, 0, 50, 50), 0);
    assert_eq!(settle_amount(1_000_000, 100_000_000, 0, 50, 49), 0);
    assert_eq!(settle_amount(1_000_000, 100_000_000, 0, i64::MAX, i64::MIN), 0);
}

#[test]
fn settle_amount_is_zero_at_rate_zero() {
    assert_eq!(settle_amount(0, 100, 0, 0, i64::MAX), 0);
}

#[test]
fn settle_amount_does_not_wrap_in_64_bits() {
    // 2^32 units per second over 2^32 seconds is 2^64: one more than fits.
    let rate: u64 = 1 << 32;
    let seconds: i64 = 1 << 32;
    assert_eq!(settle_amount(rate, u64::MAX, 0, 0, seconds), u64::MAX);
    assert_eq!(settle_amount(rate, 1_000, 0, 0, seconds), 1_000);
    assert_eq!(settle_amount(rate, u64::MAX, 0, 0, seconds - 1), u64::MAX - rate + 1);
}

#[test]
fn settle_amount_over_the_widest_span() {
    assert_eq!(settle_amount(u64::MAX, u64::MAX, 0, i64::MIN, i64::MAX), u64::MAX);
    assert_eq!(settle_amount(1, u64::MAX, 0, i64::MIN, i64::MAX), u64::MAX);
    assert_eq!(settle_amount(1, u64::MAX, 1, i64::MIN, i64::MAX), u64::MAX - 1);
    assert_eq!(settle_amount(1, u64::MAX, 0, i64::MIN, i64::MAX - 1), u64::MAX - 1);
    assert_eq!(settle_amount(u64::MAX, 77, 7, i64::MIN, i64::MAX), 70);
}

#[test]
fn settle_amount_of_an_overdrawn_record_is_zero() {
    assert_eq!(settle_amount(5, 10, 11, 0, 100), 0);
}

#[test]
fn settle_amount_grows_with_the_clock() {
    let mut last: u64 = 0;
    for now in -5..400 {
        let amount = settle_amount(3, 1_000, 100, 0, now);
        assert!(amount >= last);
        assert!(amount <= 900);
        last = amount;
    }
    assert_eq!(last, 900);
}
