//! The accrual calculator: how much of a deposit has streamed to the
//! receiver since the last settlement.
//!
//! Accrual is lazy. Nothing is updated as time passes; the amount is computed
//! from the stored settlement time whenever somebody asks.

use vstd::prelude::*;

verus! {

/// Seconds that have passed between the last settlement and `now`.
///
/// A clock that reads earlier than the stored settlement time counts as no
/// time passed at all.
pub open spec fn elapsed_seconds(last_settlement_time: int, now: int) -> nat {
    if now > last_settlement_time {
        (now - last_settlement_time) as nat
    } else {
        0
    }
}

/// What is left of a deposit once `total_withdrawn` has been paid out of it.
/// No stream pays out more than was deposited; were it so, nothing would be
/// left.
pub open spec fn remaining_deposit(total_deposited: nat, total_withdrawn: nat) -> nat {
    if total_withdrawn <= total_deposited {
        (total_deposited - total_withdrawn) as nat
    } else {
        0
    }
}

/// The amount to settle at `now`: what the rate has produced since the last
/// settlement, capped by what is left of the deposit.
pub open spec fn spec_settle_amount(
    rate_per_second: nat,
    total_deposited: nat,
    total_withdrawn: nat,
    last_settlement_time: int,
    now: int,
) -> nat {
    let accrued: nat = rate_per_second * elapsed_seconds(last_settlement_time, now);
    let remaining: nat = remaining_deposit(total_deposited, total_withdrawn);
    if accrued <= remaining {
        accrued
    } else {
        remaining
    }
}

/// The settle amount never exceeds what is left of the deposit, and it is
/// positive only when time has passed at a positive rate.
pub proof fn lemma_settle_amount_bounds(
    rate_per_second: nat,
    total_deposited: nat,
    total_withdrawn: nat,
    last_settlement_time: int,
    now: int,
)
    ensures
        spec_settle_amount(
            rate_per_second,
            total_deposited,
            total_withdrawn,
            last_settlement_time,
            now,
        ) <= remaining_deposit(total_deposited, total_withdrawn),
        spec_settle_amount(
            rate_per_second,
            total_deposited,
            total_withdrawn,
            last_settlement_time,
            now,
        ) > 0 ==> now > last_settlement_time && rate_per_second > 0 && total_withdrawn
            < total_deposited,
{
    let elapsed: nat = elapsed_seconds(last_settlement_time, now);
    assert(elapsed == 0 || rate_per_second == 0 ==> rate_per_second * elapsed == 0)
        by (nonlinear_arith);
}

/// The settle amount does not shrink as the clock advances.
pub proof fn lemma_settle_amount_monotonic(
    rate_per_second: nat,
    total_deposited: nat,
    total_withdrawn: nat,
    last_settlement_time: int,
    earlier: int,
    later: int,
)
    requires
        earlier <= later,
    ensures
        spec_settle_amount(
            rate_per_second,
            total_deposited,
            total_withdrawn,
            last_settlement_time,
            earlier,
        ) <= spec_settle_amount(
            rate_per_second,
            total_deposited,
            total_withdrawn,
            last_settlement_time,
            later,
        ),
{
    let e1: nat = elapsed_seconds(last_settlement_time, earlier);
    let e2: nat = elapsed_seconds(last_settlement_time, later);
    assert(rate_per_second * e1 <= rate_per_second * e2) by (nonlinear_arith)
        requires
            e1 <= e2,
    ;
}

/// Computes the amount to settle at `now`: the rate times the seconds since
/// the last settlement, capped by what is left of the deposit.
///
/// The function is total. A clock that reads earlier than the last
/// settlement gives zero. The product of rate and elapsed time is formed in
/// 128 bits, where it cannot overflow, and narrowed only after it has been
/// capped.
pub fn settle_amount(
    rate_per_second: u64,
    total_deposited: u64,
    total_withdrawn: u64,
    last_settlement_time: i64,
    now: i64,
) -> (amount: u64)
    ensures
        amount == spec_settle_amount(
            rate_per_second as nat,
            total_deposited as nat,
            total_withdrawn as nat,
            last_settlement_time as int,
            now as int,
        ),
{
    let elapsed: u128 = if now > last_settlement_time {
        (now as i128 - last_settlement_time as i128) as u128
    } else {
        0
    };
    assert(rate_per_second * elapsed <= u128::MAX) by (nonlinear_arith)
        requires
            rate_per_second <= u64::MAX,
            elapsed <= u64::MAX,
    ;
    let accrued: u128 = rate_per_second as u128 * elapsed;
    let remaining: u64 = if total_withdrawn <= total_deposited {
        total_deposited - total_withdrawn
    } else {
        0
    };
    if accrued <= remaining as u128 {
        accrued as u64
    } else {
        remaining
    }
}

} // verus!
