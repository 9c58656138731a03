//! Fee-adjusted price computation.
//!
//! Rates are expressed as base-asset units per one unit of a quote asset. A
//! fixed 0.3% fee is applied to the input via floored integer
//! multiplication-then-division, before any rate conversion. Cross-asset
//! trades bridge through the base rate twice, so the fee is applied twice.

use vstd::prelude::*;
use vstd::arithmetic::div_mod::{
    lemma_div_is_ordered, lemma_div_multiples_vanish, lemma_div_nonincreasing,
    lemma_div_pos_is_pos,
};
use vstd::arithmetic::mul::{lemma_mul_inequality, lemma_mul_nonnegative};

verus! {

/// The swap fee: 0.3% of the input, taken by floored integer
/// multiplication-then-division.
pub open spec fn fee_spec(amount: int) -> int {
    amount * 997 / 1000
}

/// Base asset to quote asset: the fee-reduced input divided by the rate,
/// rounded down.
pub open spec fn base_to_quote_spec(amount: int, rate: int) -> int {
    fee_spec(amount) / rate
}

/// Quote asset to base asset: the fee-reduced input times the rate.
pub open spec fn quote_to_base_spec(amount: int, rate: int) -> int {
    fee_spec(amount) * rate
}

/// Quote asset to quote asset: bridged through a synthetic base-asset amount,
/// with the fee applied on each leg.
pub open spec fn cross_quote_spec(amount: int, rate_in: int, rate_out: int) -> int {
    base_to_quote_spec(quote_to_base_spec(amount, rate_in), rate_out)
}

pub proof fn lemma_fee_bounds(amount: int)
    requires
        amount >= 0,
    ensures
        0 <= fee_spec(amount) <= amount,
{
    lemma_mul_nonnegative(amount, 997);
    lemma_div_pos_is_pos(amount * 997, 1000);
    lemma_mul_inequality(997, 1000, amount);
    lemma_div_is_ordered(amount * 997, amount * 1000, 1000);
    lemma_div_multiples_vanish(amount, 1000);
}

pub proof fn lemma_base_to_quote_bounds(amount: int, rate: int)
    requires
        amount >= 0,
        rate > 0,
    ensures
        0 <= base_to_quote_spec(amount, rate) <= amount,
{
    lemma_fee_bounds(amount);
    lemma_div_pos_is_pos(fee_spec(amount), rate);
    lemma_div_nonincreasing(fee_spec(amount), rate);
}

/// Applies the 0.3% fee to a swap input.
pub fn fee(amount: i128) -> (r: i128)
    requires
        0 <= amount,
        amount * 997 <= i128::MAX,
    ensures
        r == fee_spec(amount as int),
        0 <= r <= amount,
{
    proof {
        lemma_fee_bounds(amount as int);
    }
    amount * 997 / 1000
}

/// Converts a base-asset input to its quote-asset output at `rate`.
pub fn base_to_quote(amount: i128, rate: i128) -> (r: i128)
    requires
        0 <= amount,
        amount * 997 <= i128::MAX,
        rate > 0,
    ensures
        r == base_to_quote_spec(amount as int, rate as int),
        0 <= r <= amount,
{
    proof {
        lemma_base_to_quote_bounds(amount as int, rate as int);
    }
    let f = fee(amount);
    f / rate
}

/// Converts a quote-asset input to its base-asset output at `rate`.
pub fn quote_to_base(amount: i128, rate: i128) -> (r: i128)
    requires
        0 <= amount,
        amount * 997 <= i128::MAX,
        rate > 0,
        quote_to_base_spec(amount as int, rate as int) <= i128::MAX,
    ensures
        r == quote_to_base_spec(amount as int, rate as int),
        0 <= r,
{
    let f = fee(amount);
    proof {
        lemma_mul_nonnegative(f as int, rate as int);
    }
    f * rate
}

/// Converts between the two quote assets, bridging through the base rate.
pub fn cross_quote(amount: i128, rate_in: i128, rate_out: i128) -> (r: i128)
    requires
        0 <= amount,
        amount * 997 <= i128::MAX,
        rate_in > 0,
        rate_out > 0,
        quote_to_base_spec(amount as int, rate_in as int) <= i128::MAX,
        quote_to_base_spec(amount as int, rate_in as int) * 997 <= i128::MAX,
    ensures
        r == cross_quote_spec(amount as int, rate_in as int, rate_out as int),
        0 <= r,
{
    let mid = quote_to_base(amount, rate_in);
    base_to_quote(mid, rate_out)
}

} // verus!
