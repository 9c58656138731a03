//! Laws that relate several operations, stated and proved once.

use vstd::prelude::*;
use vstd::arithmetic::div_mod::{lemma_fundamental_div_mod, lemma_mod_bound};
use vstd::arithmetic::mul::lemma_mul_inequality;
use crate::exchange::{redeem_spec, DexError, StellarDex};
use crate::ledger::{balance_of, lemma_balance_le_sum};

verus! {

/// Law: in every reachable state, a provider's share balance is
/// non-negative and never exceeds the total share supply.
pub proof fn lemma_provider_balance_le_total(s: StellarDex, account: u64)
    requires
        s.wf(),
    ensures
        0 <= balance_of(s.ledger@, account) <= s.total_shares,
{
    lemma_balance_le_sum(s.ledger@, account);
}

/// Law: once the pause flag is set, the guard of every mutating operation
/// refuses with `ContractPaused` — swaps, deposits, redemptions and mints
/// alike, for every caller and every amount. Only `set_paused` itself, which
/// is gated on the administrator alone, stays available, so the exchange can
/// always be unpaused.
pub proof fn lemma_pause_gates_mutations(
    s: StellarDex,
    caller: u64,
    provider: u64,
    amount: int,
    out: int,
    min_out: int,
    reserve_out: int,
)
    requires
        s.initialized,
        s.paused,
    ensures
        s.pre_guard(amount) == Some(DexError::ContractPaused),
        s.swap_guard(amount, out, min_out, reserve_out) == Some(DexError::ContractPaused),
        s.add_liquidity_guard(amount, amount, amount) == Some(DexError::ContractPaused),
        s.remove_liquidity_guard(provider, amount) == Some(DexError::ContractPaused),
        caller == s.admin ==> s.mint_guard(caller, amount) == Some(DexError::ContractPaused),
        s.admin_guard(s.admin) is None,
{
}

/// The floored quotient never exceeds the exact ratio: `d * (x / d) <= x`.
proof fn lemma_div_times_divisor_le(x: int, d: int)
    requires
        0 < d,
    ensures
        d * (x / d) <= x,
{
    lemma_fundamental_div_mod(x, d);
    lemma_mod_bound(x, d);
}

/// Law: redemption never over-pays. Valuing assets in base-asset units at
/// the current rates, the value paid out for `lp_amount` of `total` shares
/// is at most the proportional share of the pool's value: scaled by `total`,
/// `total * value_out <= lp_amount * value_pool`. The floor divisions can
/// only lose value to the pool, never take from it.
pub proof fn lemma_redemption_never_overpays(
    lp_amount: int,
    total: int,
    xlm_reserve: int,
    usdc_reserve: int,
    eth_reserve: int,
    usdc_rate: int,
    eth_rate: int,
)
    requires
        0 < lp_amount <= total,
        0 <= xlm_reserve,
        0 <= usdc_reserve,
        0 <= eth_reserve,
        0 < usdc_rate,
        0 < eth_rate,
    ensures
        total * (redeem_spec(lp_amount, xlm_reserve, total) + redeem_spec(
            lp_amount,
            usdc_reserve,
            total,
        ) * usdc_rate + redeem_spec(lp_amount, eth_reserve, total) * eth_rate) <= lp_amount * (
        xlm_reserve + usdc_reserve * usdc_rate + eth_reserve * eth_rate),
{
    let qx = redeem_spec(lp_amount, xlm_reserve, total);
    let qu = redeem_spec(lp_amount, usdc_reserve, total);
    let qe = redeem_spec(lp_amount, eth_reserve, total);
    lemma_div_times_divisor_le(lp_amount * xlm_reserve, total);
    lemma_div_times_divisor_le(lp_amount * usdc_reserve, total);
    lemma_div_times_divisor_le(lp_amount * eth_reserve, total);
    lemma_mul_inequality(total * qu, lp_amount * usdc_reserve, usdc_rate);
    lemma_mul_inequality(total * qe, lp_amount * eth_reserve, eth_rate);
    assert(total * (qx + qu * usdc_rate + qe * eth_rate) == total * qx + (total * qu) * usdc_rate
        + (total * qe) * eth_rate) by (nonlinear_arith);
    assert(lp_amount * (xlm_reserve + usdc_reserve * usdc_rate + eth_reserve * eth_rate)
        == lp_amount * xlm_reserve + (lp_amount * usdc_reserve) * usdc_rate + (lp_amount
        * eth_reserve) * eth_rate) by (nonlinear_arith);
}

/// Law: `remove_liquidity` never over-pays, for any redemption a provider
/// can afford. For every `lp_amount` up to the provider's balance, the
/// base-asset value of the three outputs the operation is specified to pay
/// is at most the proportional share of the pool's value.
pub proof fn lemma_remove_liquidity_never_overpays(s: StellarDex, provider: u64, lp_amount: int)
    requires
        s.wf(),
        s.initialized,
        0 < lp_amount <= balance_of(s.ledger@, provider),
    ensures
        s.total_shares * (redeem_spec(lp_amount, s.xlm_reserve as int, s.total_shares as int)
            + redeem_spec(lp_amount, s.usdc_reserve as int, s.total_shares as int) * s.usdc_rate
            + redeem_spec(lp_amount, s.eth_reserve as int, s.total_shares as int) * s.eth_rate)
            <= lp_amount * (s.xlm_reserve + s.usdc_reserve * s.usdc_rate + s.eth_reserve
            * s.eth_rate),
{
    lemma_balance_le_sum(s.ledger@, provider);
    lemma_redemption_never_overpays(
        lp_amount,
        s.total_shares as int,
        s.xlm_reserve as int,
        s.usdc_reserve as int,
        s.eth_reserve as int,
        s.usdc_rate as int,
        s.eth_rate as int,
    );
}

} // verus!
