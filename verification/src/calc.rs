//! Overflow-safe proportional arithmetic.
//!
//! Every value conversion of the pool routes through `proportional`:
//! `amount * numerator / denominator`, computed over a double-width
//! intermediate and narrowed back, failing when the narrowed result does
//! not fit.  A zero denominator deliberately means "no conversion defined
//! yet" and leaves the amount unchanged; it is not a divide-by-zero guard.
//! Division floors, so every conversion rounds in favour of the pool.

use vstd::prelude::*;

use crate::error::StakingError;

verus! {

/// `amount * numerator / denominator` over unbounded integers, with the
/// zero-denominator special case returning `amount` unchanged.
pub open spec fn proportional_spec(amount: int, numerator: int, denominator: int) -> int {
    if denominator == 0 {
        amount
    } else {
        amount * numerator / denominator
    }
}

/// Shares owed for a deposited value: the first depositor (no shares
/// outstanding) gets value and shares one to one.
pub open spec fn shares_from_value_spec(value: int, total_value: int, total_shares: int) -> int {
    if total_shares == 0 {
        value
    } else {
        proportional_spec(value, total_shares, total_value)
    }
}

/// Value owed for a parcel of shares: the inverse ratio of
/// `shares_from_value_spec`, floored.
pub open spec fn value_from_shares_spec(shares: int, total_value: int, total_shares: int) -> int {
    proportional_spec(shares, total_value, total_shares)
}

pub fn proportional(amount: u64, numerator: u64, denominator: u64) -> (r: Result<
    u64,
    StakingError,
>)
    ensures
        r is Ok <==> proportional_spec(amount as int, numerator as int, denominator as int)
            <= u64::MAX,
        r matches Ok(v) ==> v == proportional_spec(
            amount as int,
            numerator as int,
            denominator as int,
        ),
        r is Err ==> r == Err::<u64, StakingError>(StakingError::CalculationFailure),
{
    if denominator == 0 {
        return Ok(amount);
    }
    proof {
        vstd::arithmetic::mul::lemma_mul_upper_bound(
            amount as int,
            u64::MAX as int,
            numerator as int,
            u64::MAX as int,
        );
    }
    let product: u128 = (amount as u128) * (numerator as u128);
    let quotient: u128 = product / (denominator as u128);
    if quotient > u64::MAX as u128 {
        Err(StakingError::CalculationFailure)
    } else {
        Ok(quotient as u64)
    }
}

pub fn value_from_shares(shares: u64, total_value: u64, total_shares: u64) -> (r: Result<
    u64,
    StakingError,
>)
    ensures
        r is Ok <==> value_from_shares_spec(shares as int, total_value as int, total_shares as int)
            <= u64::MAX,
        r matches Ok(v) ==> v == value_from_shares_spec(
            shares as int,
            total_value as int,
            total_shares as int,
        ),
        r is Err ==> r == Err::<u64, StakingError>(StakingError::CalculationFailure),
{
    proportional(shares, total_value, total_shares)
}

pub fn shares_from_value(value: u64, total_value: u64, total_shares: u64) -> (r: Result<
    u64,
    StakingError,
>)
    ensures
        r is Ok <==> shares_from_value_spec(value as int, total_value as int, total_shares as int)
            <= u64::MAX,
        r matches Ok(v) ==> v == shares_from_value_spec(
            value as int,
            total_value as int,
            total_shares as int,
        ),
        r is Err ==> r == Err::<u64, StakingError>(StakingError::CalculationFailure),
{
    if total_shares == 0 {
        Ok(value)
    } else {
        proportional(value, total_shares, total_value)
    }
}

/// With a zero denominator no conversion is defined yet: any amount
/// passes through unchanged, whatever the numerator.
pub proof fn lemma_proportional_zero_denominator(amount: int, numerator: int)
    ensures
        proportional_spec(amount, numerator, 0) == amount,
{
}

/// The bootstrap case: into an empty pool, value converts to shares one
/// to one.
pub proof fn lemma_shares_bootstrap(value: int)
    ensures
        shares_from_value_spec(value, 0, 0) == value,
{
}

/// A proportional conversion never grows with a smaller amount: the result
/// is monotone in its first argument.
pub proof fn lemma_proportional_monotone(a1: int, a2: int, numerator: int, denominator: int)
    requires
        0 <= a1 <= a2,
        0 <= numerator,
        0 <= denominator,
    ensures
        proportional_spec(a1, numerator, denominator) <= proportional_spec(
            a2,
            numerator,
            denominator,
        ),
{
    if denominator != 0 {
        vstd::arithmetic::mul::lemma_mul_inequality(a1, a2, numerator);
        vstd::arithmetic::div_mod::lemma_div_is_ordered(
            a1 * numerator,
            a2 * numerator,
            denominator,
        );
    }
}

/// A conversion at a ratio of at most one cannot grow the amount.
pub proof fn lemma_proportional_le_amount(amount: int, numerator: int, denominator: int)
    requires
        0 <= amount,
        0 <= numerator <= denominator,
        0 < denominator,
    ensures
        0 <= proportional_spec(amount, numerator, denominator) <= amount,
{
    vstd::arithmetic::mul::lemma_mul_inequality(numerator, denominator, amount);
    assert(numerator * amount == amount * numerator) by (nonlinear_arith);
    assert(denominator * amount == amount * denominator) by (nonlinear_arith);
    vstd::arithmetic::div_mod::lemma_div_is_ordered(
        amount * numerator,
        amount * denominator,
        denominator,
    );
    vstd::arithmetic::div_mod::lemma_div_multiples_vanish(amount, denominator);
    assert(denominator * amount / denominator == amount * denominator / denominator)
        by (nonlinear_arith);
    vstd::arithmetic::mul::lemma_mul_nonnegative(amount, numerator);
    vstd::arithmetic::div_mod::lemma_div_pos_is_pos(amount * numerator, denominator);
}

/// Converting an amount at a ratio and back at the inverse ratio cannot
/// exceed the original amount: floor division loses value, never creates it.
pub proof fn lemma_proportional_round_trip(v: int, t: int, s: int)
    requires
        0 <= v,
        0 <= t,
        0 < s,
    ensures
        proportional_spec(proportional_spec(v, s, t), t, s) <= v,
{
    if t == 0 {
        assert(proportional_spec(v, s, 0) == v);
        assert(v * 0 == 0) by (nonlinear_arith);
        assert(proportional_spec(v, 0, s) == 0int / s);
        vstd::arithmetic::div_mod::lemma_div_of0(s);
    } else {
        let q = v * s / t;
        vstd::arithmetic::div_mod::lemma_fundamental_div_mod(v * s, t);
        vstd::arithmetic::div_mod::lemma_mod_bound(v * s, t);
        vstd::arithmetic::mul::lemma_mul_nonnegative(v, s);
        assert(q * t <= v * s) by (nonlinear_arith)
            requires
                v * s == t * q + (v * s) % t,
                0 <= (v * s) % t,
        ;
        vstd::arithmetic::div_mod::lemma_div_pos_is_pos(v * s, t);
        vstd::arithmetic::div_mod::lemma_div_is_ordered(q * t, v * s, s);
        vstd::arithmetic::div_mod::lemma_div_multiples_vanish(v, s);
        assert(v * s / s == s * v / s) by (nonlinear_arith);
    }
}

/// Converting back any number of shares within a buy order cannot return
/// more than the value that paid for the order.
pub proof fn lemma_buy_order_value_bound(v: int, total_value: int, total_shares: int, m: int)
    requires
        0 <= v,
        0 <= total_value,
        0 <= total_shares,
        0 <= m <= shares_from_value_spec(v, total_value, total_shares),
    ensures
        value_from_shares_spec(m, total_value, total_shares) <= v,
{
    if total_shares == 0 {
        assert(value_from_shares_spec(m, total_value, 0) == m);
    } else if total_value == 0 {
        assert(m * 0 == 0) by (nonlinear_arith);
        vstd::arithmetic::div_mod::lemma_div_of0(total_shares);
    } else {
        lemma_proportional_monotone(
            m,
            shares_from_value_spec(v, total_value, total_shares),
            total_value,
            total_shares,
        );
        lemma_proportional_round_trip(v, total_value, total_shares);
    }
}

/// Rounding never favours the caller: turning a value into shares and the
/// shares back into value returns at most the original value whenever any
/// shares are outstanding.
pub proof fn lemma_shares_round_trip(v: int, total_value: int, total_shares: int)
    requires
        0 <= v,
        0 <= total_value,
        0 < total_shares,
    ensures
        value_from_shares_spec(
            shares_from_value_spec(v, total_value, total_shares),
            total_value,
            total_shares,
        ) <= v,
{
    lemma_proportional_round_trip(v, total_value, total_shares);
}

} // verus!
