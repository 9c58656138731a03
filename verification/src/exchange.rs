//! The exchange state and its operations.
//!
//! `StellarDex` is the single aggregate that a deployment owns: configuration,
//! reserves, the rate table, the liquidity ledger and the mint audit counters.
//! Every operation takes it by exclusive reference, validates its guards in a
//! fixed order, and either commits the whole change or returns an error and
//! leaves the state untouched. External collaborators are the callers'
//! business: callers authenticate identities before invoking an operation
//! (`caller` is the authenticated identity) and move custodial balances
//! according to the returned amounts.

use vstd::prelude::*;
use vstd::arithmetic::div_mod::{
    lemma_div_is_ordered, lemma_div_multiples_vanish, lemma_div_pos_is_pos,
};
use vstd::arithmetic::mul::{
    lemma_mul_inequality, lemma_mul_nonnegative, lemma_mul_strictly_positive,
};
use crate::ledger;
use crate::ledger::{
    balance_of, lemma_balance_le_sum, nonneg_shares, sum_shares, unique_accounts, LedgerEntry,
};
use crate::pricing;
use crate::pricing::{base_to_quote_spec, cross_quote_spec, quote_to_base_spec};

verus! {

/// Why an operation was refused. Every kind aborts the whole operation with
/// no partial effect.
#[derive(Clone, Copy, PartialEq, Eq, Structural, Debug)]
pub enum DexError {
    /// The caller is not the stored administrator.
    NotAdmin,
    /// The amount of an operation was not positive.
    ZeroAmount,
    /// The output reserve cannot cover the computed output.
    InsufficientFunds,
    /// The computed output is below the caller's floor.
    SlippageExceeded,
    /// The exchange is paused.
    ContractPaused,
    /// A second initialization was attempted.
    AlreadyInit,
    /// Reserved in the taxonomy; no operation raises it.
    BadToken,
    /// A redemption exceeds the provider's share balance.
    InsufficientLp,
    /// The exchange has not been initialized yet.
    NotInit,
}

/// The accounting state of the exchange.
pub struct StellarDex {
    /// Whether `initialize` has run.
    pub initialized: bool,
    /// The administrator's identity.
    pub admin: u64,
    /// Identifier of the base asset.
    pub xlm_token: u64,
    /// Identifier of the first quote asset.
    pub usdc_token: u64,
    /// Identifier of the second quote asset.
    pub eth_token: u64,
    /// Base-asset units per one unit of the first quote asset.
    pub usdc_rate: i128,
    /// Base-asset units per one unit of the second quote asset.
    pub eth_rate: i128,
    /// Custodied balance of the base asset.
    pub xlm_reserve: i128,
    /// Custodied balance of the first quote asset.
    pub usdc_reserve: i128,
    /// Custodied balance of the second quote asset.
    pub eth_reserve: i128,
    /// Total liquidity shares outstanding.
    pub total_shares: i128,
    /// Per-provider share balances.
    pub ledger: Vec<LedgerEntry>,
    /// Cumulative units of the first quote asset ever minted.
    pub total_usdc_minted: i128,
    /// Cumulative units of the second quote asset ever minted.
    pub total_eth_minted: i128,
    /// Whether mutating operations are paused.
    pub paused: bool,
}

/// Shares issued for a deposit: the deposit's value in base-asset units at
/// the current rate table.
pub open spec fn shares_spec(
    xlm_amount: int,
    usdc_amount: int,
    eth_amount: int,
    usdc_rate: int,
    eth_rate: int,
) -> int {
    xlm_amount + usdc_amount * usdc_rate + eth_amount * eth_rate
}

/// A redemption's cut of one reserve: proportional, rounded down.
pub open spec fn redeem_spec(lp_amount: int, reserve: int, total: int) -> int {
    lp_amount * reserve / total
}

/// A proportional redemption of at most the whole supply pays out at most the
/// reserve, and never a negative amount.
pub proof fn lemma_redeem_bounds(lp_amount: int, reserve: int, total: int)
    requires
        0 < lp_amount <= total,
        0 <= reserve,
    ensures
        0 <= redeem_spec(lp_amount, reserve, total) <= reserve,
{
    lemma_mul_nonnegative(lp_amount, reserve);
    lemma_div_pos_is_pos(lp_amount * reserve, total);
    lemma_mul_inequality(lp_amount, total, reserve);
    lemma_div_is_ordered(lp_amount * reserve, total * reserve, total);
    lemma_div_multiples_vanish(reserve, total);
}

impl StellarDex {
    /// What holds of every reachable state: reserves, counters and the share
    /// supply are non-negative, the supply equals the sum of the ledger, rates
    /// are strictly positive once set, and an uninitialized exchange is empty.
    pub open spec fn wf(self) -> bool {
        &&& self.xlm_reserve >= 0
        &&& self.usdc_reserve >= 0
        &&& self.eth_reserve >= 0
        &&& self.total_shares >= 0
        &&& self.total_usdc_minted >= 0
        &&& self.total_eth_minted >= 0
        &&& unique_accounts(self.ledger@)
        &&& nonneg_shares(self.ledger@)
        &&& self.total_shares == sum_shares(self.ledger@)
        &&& (self.initialized ==> self.usdc_rate > 0 && self.eth_rate > 0)
        &&& (!self.initialized ==> {
            &&& self.ledger@.len() == 0
            &&& self.total_shares == 0
            &&& self.xlm_reserve == 0
            &&& self.usdc_reserve == 0
            &&& self.eth_reserve == 0
            &&& self.total_usdc_minted == 0
            &&& self.total_eth_minted == 0
            &&& !self.paused
        })
    }

    /// An empty, uninitialized exchange.
    pub fn new() -> (s: StellarDex)
        ensures
            s.wf(),
            !s.initialized,
            s.admin == 0,
            s.xlm_token == 0,
            s.usdc_token == 0,
            s.eth_token == 0,
            s.usdc_rate == 0,
            s.eth_rate == 0,
            s.ledger@.len() == 0,
    {
        StellarDex {
            initialized: false,
            admin: 0,
            xlm_token: 0,
            usdc_token: 0,
            eth_token: 0,
            usdc_rate: 0,
            eth_rate: 0,
            xlm_reserve: 0,
            usdc_reserve: 0,
            eth_reserve: 0,
            total_shares: 0,
            ledger: Vec::new(),
            total_usdc_minted: 0,
            total_eth_minted: 0,
            paused: false,
        }
    }

    /// The guard of an admin-gated operation: configuration must exist and
    /// the authenticated caller must be the stored administrator.
    pub open spec fn admin_guard(self, caller: u64) -> Option<DexError> {
        if !self.initialized {
            Some(DexError::NotInit)
        } else if caller != self.admin {
            Some(DexError::NotAdmin)
        } else {
            None
        }
    }

    /// The guard prefix shared by every trading and liquidity operation:
    /// configuration, pause flag, then amount validation.
    pub open spec fn pre_guard(self, amount_in: int) -> Option<DexError> {
        if !self.initialized {
            Some(DexError::NotInit)
        } else if self.paused {
            Some(DexError::ContractPaused)
        } else if amount_in <= 0 {
            Some(DexError::ZeroAmount)
        } else {
            None
        }
    }

    /// The full guard of a swap: the shared prefix, then the slippage floor,
    /// then sufficiency of the output reserve.
    pub open spec fn swap_guard(
        self,
        amount_in: int,
        out: int,
        min_out: int,
        reserve_out: int,
    ) -> Option<DexError> {
        if self.pre_guard(amount_in) is Some {
            self.pre_guard(amount_in)
        } else if out < min_out {
            Some(DexError::SlippageExceeded)
        } else if reserve_out < out {
            Some(DexError::InsufficientFunds)
        } else {
            None
        }
    }

    /// Writes the configuration, a zeroed pool and an empty ledger, once.
    /// The caller must be authenticated as `admin` itself: no administrator
    /// exists yet to gate this bootstrap.
    pub fn initialize(
        &mut self,
        admin: u64,
        xlm_token: u64,
        usdc_token: u64,
        eth_token: u64,
        xlm_per_usdc: i128,
        xlm_per_eth: i128,
    ) -> (r: Result<(), DexError>)
        requires
            old(self).wf(),
            xlm_per_usdc > 0,
            xlm_per_eth > 0,
        ensures
            final(self).wf(),
            old(self).initialized ==> r == Err::<(), DexError>(DexError::AlreadyInit)
                && *final(self) == *old(self),
            !old(self).initialized ==> r == Ok::<(), DexError>(()) && *final(self) == (StellarDex {
                initialized: true,
                admin,
                xlm_token,
                usdc_token,
                eth_token,
                usdc_rate: xlm_per_usdc,
                eth_rate: xlm_per_eth,
                ..*old(self)
            }),
    {
        if self.initialized {
            return Err(DexError::AlreadyInit);
        }
        self.initialized = true;
        self.admin = admin;
        self.xlm_token = xlm_token;
        self.usdc_token = usdc_token;
        self.eth_token = eth_token;
        self.usdc_rate = xlm_per_usdc;
        self.eth_rate = xlm_per_eth;
        Ok(())
    }

    /// Sets the pause flag. Deliberately not gated on the flag itself, so the
    /// administrator can always unpause.
    pub fn set_paused(&mut self, caller: u64, paused: bool) -> (r: Result<(), DexError>)
        requires
            old(self).wf(),
        ensures
            final(self).wf(),
            match r {
                Ok(()) => old(self).admin_guard(caller) is None && *final(self) == (StellarDex {
                    paused,
                    ..*old(self)
                }),
                Err(e) => Some(e) == old(self).admin_guard(caller) && *final(self) == *old(self),
            },
    {
        if !self.initialized {
            return Err(DexError::NotInit);
        }
        if caller != self.admin {
            return Err(DexError::NotAdmin);
        }
        self.paused = paused;
        Ok(())
    }

    /// Sets the rate of the first quote asset.
    pub fn set_usdc_rate(&mut self, caller: u64, xlm_per_usdc: i128) -> (r: Result<(), DexError>)
        requires
            old(self).wf(),
            xlm_per_usdc > 0,
        ensures
            final(self).wf(),
            match r {
                Ok(()) => old(self).admin_guard(caller) is None && *final(self) == (StellarDex {
                    usdc_rate: xlm_per_usdc,
                    ..*old(self)
                }),
                Err(e) => Some(e) == old(self).admin_guard(caller) && *final(self) == *old(self),
            },
    {
        if !self.initialized {
            return Err(DexError::NotInit);
        }
        if caller != self.admin {
            return Err(DexError::NotAdmin);
        }
        self.usdc_rate = xlm_per_usdc;
        Ok(())
    }

    /// Sets the rate of the second quote asset.
    pub fn set_eth_rate(&mut self, caller: u64, xlm_per_eth: i128) -> (r: Result<(), DexError>)
        requires
            old(self).wf(),
            xlm_per_eth > 0,
        ensures
            final(self).wf(),
            match r {
                Ok(()) => old(self).admin_guard(caller) is None && *final(self) == (StellarDex {
                    eth_rate: xlm_per_eth,
                    ..*old(self)
                }),
                Err(e) => Some(e) == old(self).admin_guard(caller) && *final(self) == *old(self),
            },
    {
        if !self.initialized {
            return Err(DexError::NotInit);
        }
        if caller != self.admin {
            return Err(DexError::NotAdmin);
        }
        self.eth_rate = xlm_per_eth;
        Ok(())
    }

    /// Hands the administrator role to `new_admin`. The caller must be the
    /// current administrator, and the new administrator must have consented
    /// by authenticating as well, which is the caller's duty.
    pub fn transfer_admin(&mut self, caller: u64, new_admin: u64) -> (r: Result<(), DexError>)
        requires
            old(self).wf(),
        ensures
            final(self).wf(),
            match r {
                Ok(()) => old(self).admin_guard(caller) is None && *final(self) == (StellarDex {
                    admin: new_admin,
                    ..*old(self)
                }),
                Err(e) => Some(e) == old(self).admin_guard(caller) && *final(self) == *old(self),
            },
    {
        if !self.initialized {
            return Err(DexError::NotInit);
        }
        if caller != self.admin {
            return Err(DexError::NotAdmin);
        }
        self.admin = new_admin;
        Ok(())
    }

    /// Sets the base-asset identifier, for post-deployment setup.
    pub fn set_xlm_token(&mut self, caller: u64, xlm_token: u64) -> (r: Result<(), DexError>)
        requires
            old(self).wf(),
        ensures
            final(self).wf(),
            match r {
                Ok(()) => old(self).admin_guard(caller) is None && *final(self) == (StellarDex {
                    xlm_token,
                    ..*old(self)
                }),
                Err(e) => Some(e) == old(self).admin_guard(caller) && *final(self) == *old(self),
            },
    {
        if !self.initialized {
            return Err(DexError::NotInit);
        }
        if caller != self.admin {
            return Err(DexError::NotAdmin);
        }
        self.xlm_token = xlm_token;
        Ok(())
    }

    /// The admin gate of a code upgrade. Replacing the running code is the
    /// deployment collaborator's work and happens outside this core, only
    /// when this check has passed.
    pub fn upgrade(&self, caller: u64) -> (r: Result<(), DexError>)
        ensures
            match r {
                Ok(()) => self.admin_guard(caller) is None,
                Err(e) => Some(e) == self.admin_guard(caller),
            },
    {
        if !self.initialized {
            return Err(DexError::NotInit);
        }
        if caller != self.admin {
            return Err(DexError::NotAdmin);
        }
        Ok(())
    }

    /// The guard of a privileged mint: the admin gate, then the pause flag,
    /// then amount validation.
    pub open spec fn mint_guard(self, caller: u64, amount: int) -> Option<DexError> {
        if self.admin_guard(caller) is Some {
            self.admin_guard(caller)
        } else if self.paused {
            Some(DexError::ContractPaused)
        } else if amount <= 0 {
            Some(DexError::ZeroAmount)
        } else {
            None
        }
    }

    /// Issues `amount` of the first quote asset directly to `to`'s external
    /// balance and records it in the audit counter. The minted supply never
    /// enters the pool reserves; the caller performs the actual issuance to
    /// `to` once this returns successfully.
    #[allow(unused_variables)]
    pub fn mint_usdc(&mut self, caller: u64, to: u64, amount: i128) -> (r: Result<(), DexError>)
        requires
            old(self).wf(),
            old(self).mint_guard(caller, amount as int) is None ==> old(self).total_usdc_minted
                + amount <= i128::MAX,
        ensures
            final(self).wf(),
            match r {
                Ok(()) => old(self).mint_guard(caller, amount as int) is None && *final(self)
                    == (StellarDex {
                    total_usdc_minted: (old(self).total_usdc_minted + amount) as i128,
                    ..*old(self)
                }),
                Err(e) => Some(e) == old(self).mint_guard(caller, amount as int) && *final(self)
                    == *old(self),
            },
    {
        if !self.initialized {
            return Err(DexError::NotInit);
        }
        if caller != self.admin {
            return Err(DexError::NotAdmin);
        }
        if self.paused {
            return Err(DexError::ContractPaused);
        }
        if amount <= 0 {
            return Err(DexError::ZeroAmount);
        }
        self.total_usdc_minted = self.total_usdc_minted + amount;
        Ok(())
    }

    /// Issues `amount` of the second quote asset directly to `to`'s external
    /// balance and records it in the audit counter. The minted supply never
    /// enters the pool reserves; the caller performs the actual issuance to
    /// `to` once this returns successfully.
    #[allow(unused_variables)]
    pub fn mint_eth(&mut self, caller: u64, to: u64, amount: i128) -> (r: Result<(), DexError>)
        requires
            old(self).wf(),
            old(self).mint_guard(caller, amount as int) is None ==> old(self).total_eth_minted
                + amount <= i128::MAX,
        ensures
            final(self).wf(),
            match r {
                Ok(()) => old(self).mint_guard(caller, amount as int) is None && *final(self)
                    == (StellarDex {
                    total_eth_minted: (old(self).total_eth_minted + amount) as i128,
                    ..*old(self)
                }),
                Err(e) => Some(e) == old(self).mint_guard(caller, amount as int) && *final(self)
                    == *old(self),
            },
    {
        if !self.initialized {
            return Err(DexError::NotInit);
        }
        if caller != self.admin {
            return Err(DexError::NotAdmin);
        }
        if self.paused {
            return Err(DexError::ContractPaused);
        }
        if amount <= 0 {
            return Err(DexError::ZeroAmount);
        }
        self.total_eth_minted = self.total_eth_minted + amount;
        Ok(())
    }

    /// Sells `xlm_in` of the base asset for the first quote asset. On success
    /// the caller moves `xlm_in` from the buyer into custody and the returned
    /// output from custody to the buyer, in that order.
    #[allow(unused_variables)]
    pub fn swap_xlm_for_usdc(
        &mut self,
        buyer: u64,
        xlm_in: i128,
        min_usdc_out: i128,
    ) -> (r: Result<i128, DexError>)
        requires
            old(self).wf(),
            old(self).pre_guard(xlm_in as int) is None ==> xlm_in * 997 <= i128::MAX,
            old(self).swap_guard(
                xlm_in as int,
                base_to_quote_spec(xlm_in as int, old(self).usdc_rate as int),
                min_usdc_out as int,
                old(self).usdc_reserve as int,
            ) is None ==> old(self).xlm_reserve + xlm_in <= i128::MAX,
        ensures
            final(self).wf(),
            ({
                let s0 = *old(self);
                let out = base_to_quote_spec(xlm_in as int, s0.usdc_rate as int);
                let g = s0.swap_guard(
                    xlm_in as int,
                    out,
                    min_usdc_out as int,
                    s0.usdc_reserve as int,
                );
                match r {
                    Ok(got) => g is None && got as int == out && *final(self) == (StellarDex {
                        xlm_reserve: (s0.xlm_reserve + xlm_in) as i128,
                        usdc_reserve: (s0.usdc_reserve - out) as i128,
                        ..s0
                    }),
                    Err(e) => g == Some(e) && *final(self) == s0,
                }
            }),
    {
        if !self.initialized {
            return Err(DexError::NotInit);
        }
        if self.paused {
            return Err(DexError::ContractPaused);
        }
        if xlm_in <= 0 {
            return Err(DexError::ZeroAmount);
        }
        let usdc_out = pricing::base_to_quote(xlm_in, self.usdc_rate);
        if usdc_out < min_usdc_out {
            return Err(DexError::SlippageExceeded);
        }
        if self.usdc_reserve < usdc_out {
            return Err(DexError::InsufficientFunds);
        }
        self.xlm_reserve = self.xlm_reserve + xlm_in;
        self.usdc_reserve = self.usdc_reserve - usdc_out;
        Ok(usdc_out)
    }

    /// Sells `usdc_in` of the first quote asset for the base asset. On
    /// success the caller moves `usdc_in` from the seller into custody and
    /// the returned output from custody to the seller.
    #[allow(unused_variables)]
    pub fn swap_usdc_for_xlm(
        &mut self,
        seller: u64,
        usdc_in: i128,
        min_xlm_out: i128,
    ) -> (r: Result<i128, DexError>)
        requires
            old(self).wf(),
            old(self).pre_guard(usdc_in as int) is None ==> usdc_in * 997 <= i128::MAX
                && quote_to_base_spec(usdc_in as int, old(self).usdc_rate as int) <= i128::MAX,
            old(self).swap_guard(
                usdc_in as int,
                quote_to_base_spec(usdc_in as int, old(self).usdc_rate as int),
                min_xlm_out as int,
                old(self).xlm_reserve as int,
            ) is None ==> old(self).usdc_reserve + usdc_in <= i128::MAX,
        ensures
            final(self).wf(),
            ({
                let s0 = *old(self);
                let out = quote_to_base_spec(usdc_in as int, s0.usdc_rate as int);
                let g = s0.swap_guard(
                    usdc_in as int,
                    out,
                    min_xlm_out as int,
                    s0.xlm_reserve as int,
                );
                match r {
                    Ok(got) => g is None && got as int == out && *final(self) == (StellarDex {
                        xlm_reserve: (s0.xlm_reserve - out) as i128,
                        usdc_reserve: (s0.usdc_reserve + usdc_in) as i128,
                        ..s0
                    }),
                    Err(e) => g == Some(e) && *final(self) == s0,
                }
            }),
    {
        if !self.initialized {
            return Err(DexError::NotInit);
        }
        if self.paused {
            return Err(DexError::ContractPaused);
        }
        if usdc_in <= 0 {
            return Err(DexError::ZeroAmount);
        }
        let xlm_out = pricing::quote_to_base(usdc_in, self.usdc_rate);
        if xlm_out < min_xlm_out {
            return Err(DexError::SlippageExceeded);
        }
        if self.xlm_reserve < xlm_out {
            return Err(DexError::InsufficientFunds);
        }
        self.xlm_reserve = self.xlm_reserve - xlm_out;
        self.usdc_reserve = self.usdc_reserve + usdc_in;
        Ok(xlm_out)
    }

    /// Sells `xlm_in` of the base asset for the second quote asset.
    #[allow(unused_variables)]
    pub fn swap_xlm_for_eth(
        &mut self,
        buyer: u64,
        xlm_in: i128,
        min_eth_out: i128,
    ) -> (r: Result<i128, DexError>)
        requires
            old(self).wf(),
            old(self).pre_guard(xlm_in as int) is None ==> xlm_in * 997 <= i128::MAX,
            old(self).swap_guard(
                xlm_in as int,
                base_to_quote_spec(xlm_in as int, old(self).eth_rate as int),
                min_eth_out as int,
                old(self).eth_reserve as int,
            ) is None ==> old(self).xlm_reserve + xlm_in <= i128::MAX,
        ensures
            final(self).wf(),
            ({
                let s0 = *old(self);
                let out = base_to_quote_spec(xlm_in as int, s0.eth_rate as int);
                let g = s0.swap_guard(
                    xlm_in as int,
                    out,
                    min_eth_out as int,
                    s0.eth_reserve as int,
                );
                match r {
                    Ok(got) => g is None && got as int == out && *final(self) == (StellarDex {
                        xlm_reserve: (s0.xlm_reserve + xlm_in) as i128,
                        eth_reserve: (s0.eth_reserve - out) as i128,
                        ..s0
                    }),
                    Err(e) => g == Some(e) && *final(self) == s0,
                }
            }),
    {
        if !self.initialized {
            return Err(DexError::NotInit);
        }
        if self.paused {
            return Err(DexError::ContractPaused);
        }
        if xlm_in <= 0 {
            return Err(DexError::ZeroAmount);
        }
        let eth_out = pricing::base_to_quote(xlm_in, self.eth_rate);
        if eth_out < min_eth_out {
            return Err(DexError::SlippageExceeded);
        }
        if self.eth_reserve < eth_out {
            return Err(DexError::InsufficientFunds);
        }
        self.xlm_reserve = self.xlm_reserve + xlm_in;
        self.eth_reserve = self.eth_reserve - eth_out;
        Ok(eth_out)
    }

    /// Sells `eth_in` of the second quote asset for the base asset.
    #[allow(unused_variables)]
    pub fn swap_eth_for_xlm(
        &mut self,
        seller: u64,
        eth_in: i128,
        min_xlm_out: i128,
    ) -> (r: Result<i128, DexError>)
        requires
            old(self).wf(),
            old(self).pre_guard(eth_in as int) is None ==> eth_in * 997 <= i128::MAX
                && quote_to_base_spec(eth_in as int, old(self).eth_rate as int) <= i128::MAX,
            old(self).swap_guard(
                eth_in as int,
                quote_to_base_spec(eth_in as int, old(self).eth_rate as int),
                min_xlm_out as int,
                old(self).xlm_reserve as int,
            ) is None ==> old(self).eth_reserve + eth_in <= i128::MAX,
        ensures
            final(self).wf(),
            ({
                let s0 = *old(self);
                let out = quote_to_base_spec(eth_in as int, s0.eth_rate as int);
                let g = s0.swap_guard(
                    eth_in as int,
                    out,
                    min_xlm_out as int,
                    s0.xlm_reserve as int,
                );
                match r {
                    Ok(got) => g is None && got as int == out && *final(self) == (StellarDex {
                        xlm_reserve: (s0.xlm_reserve - out) as i128,
                        eth_reserve: (s0.eth_reserve + eth_in) as i128,
                        ..s0
                    }),
                    Err(e) => g == Some(e) && *final(self) == s0,
                }
            }),
    {
        if !self.initialized {
            return Err(DexError::NotInit);
        }
        if self.paused {
            return Err(DexError::ContractPaused);
        }
        if eth_in <= 0 {
            return Err(DexError::ZeroAmount);
        }
        let xlm_out = pricing::quote_to_base(eth_in, self.eth_rate);
        if xlm_out < min_xlm_out {
            return Err(DexError::SlippageExceeded);
        }
        if self.xlm_reserve < xlm_out {
            return Err(DexError::InsufficientFunds);
        }
        self.xlm_reserve = self.xlm_reserve - xlm_out;
        self.eth_reserve = self.eth_reserve + eth_in;
        Ok(xlm_out)
    }

    /// Sells `usdc_in` of the first quote asset for the second, bridging
    /// through the base rate twice. The synthetic base-asset midpoint never
    /// touches the base reserve: only the two quote reserves move.
    #[allow(unused_variables)]
    pub fn swap_usdc_for_eth(
        &mut self,
        swapper: u64,
        usdc_in: i128,
        min_eth_out: i128,
    ) -> (r: Result<i128, DexError>)
        requires
            old(self).wf(),
            old(self).pre_guard(usdc_in as int) is None ==> usdc_in * 997 <= i128::MAX
                && quote_to_base_spec(usdc_in as int, old(self).usdc_rate as int) <= i128::MAX
                && quote_to_base_spec(usdc_in as int, old(self).usdc_rate as int) * 997
                <= i128::MAX,
            old(self).swap_guard(
                usdc_in as int,
                cross_quote_spec(
                    usdc_in as int,
                    old(self).usdc_rate as int,
                    old(self).eth_rate as int,
                ),
                min_eth_out as int,
                old(self).eth_reserve as int,
            ) is None ==> old(self).usdc_reserve + usdc_in <= i128::MAX,
        ensures
            final(self).wf(),
            ({
                let s0 = *old(self);
                let out = cross_quote_spec(usdc_in as int, s0.usdc_rate as int, s0.eth_rate as int);
                let g = s0.swap_guard(
                    usdc_in as int,
                    out,
                    min_eth_out as int,
                    s0.eth_reserve as int,
                );
                match r {
                    Ok(got) => g is None && got as int == out && *final(self) == (StellarDex {
                        usdc_reserve: (s0.usdc_reserve + usdc_in) as i128,
                        eth_reserve: (s0.eth_reserve - out) as i128,
                        ..s0
                    }),
                    Err(e) => g == Some(e) && *final(self) == s0,
                }
            }),
    {
        if !self.initialized {
            return Err(DexError::NotInit);
        }
        if self.paused {
            return Err(DexError::ContractPaused);
        }
        if usdc_in <= 0 {
            return Err(DexError::ZeroAmount);
        }
        let eth_out = pricing::cross_quote(usdc_in, self.usdc_rate, self.eth_rate);
        if eth_out < min_eth_out {
            return Err(DexError::SlippageExceeded);
        }
        if self.eth_reserve < eth_out {
            return Err(DexError::InsufficientFunds);
        }
        self.usdc_reserve = self.usdc_reserve + usdc_in;
        self.eth_reserve = self.eth_reserve - eth_out;
        Ok(eth_out)
    }

    /// Sells `eth_in` of the second quote asset for the first, bridging
    /// through the base rate twice, without touching the base reserve.
    #[allow(unused_variables)]
    pub fn swap_eth_for_usdc(
        &mut self,
        swapper: u64,
        eth_in: i128,
        min_usdc_out: i128,
    ) -> (r: Result<i128, DexError>)
        requires
            old(self).wf(),
            old(self).pre_guard(eth_in as int) is None ==> eth_in * 997 <= i128::MAX
                && quote_to_base_spec(eth_in as int, old(self).eth_rate as int) <= i128::MAX
                && quote_to_base_spec(eth_in as int, old(self).eth_rate as int) * 997
                <= i128::MAX,
            old(self).swap_guard(
                eth_in as int,
                cross_quote_spec(
                    eth_in as int,
                    old(self).eth_rate as int,
                    old(self).usdc_rate as int,
                ),
                min_usdc_out as int,
                old(self).usdc_reserve as int,
            ) is None ==> old(self).eth_reserve + eth_in <= i128::MAX,
        ensures
            final(self).wf(),
            ({
                let s0 = *old(self);
                let out = cross_quote_spec(eth_in as int, s0.eth_rate as int, s0.usdc_rate as int);
                let g = s0.swap_guard(
                    eth_in as int,
                    out,
                    min_usdc_out as int,
                    s0.usdc_reserve as int,
                );
                match r {
                    Ok(got) => g is None && got as int == out && *final(self) == (StellarDex {
                        usdc_reserve: (s0.usdc_reserve - out) as i128,
                        eth_reserve: (s0.eth_reserve + eth_in) as i128,
                        ..s0
                    }),
                    Err(e) => g == Some(e) && *final(self) == s0,
                }
            }),
    {
        if !self.initialized {
            return Err(DexError::NotInit);
        }
        if self.paused {
            return Err(DexError::ContractPaused);
        }
        if eth_in <= 0 {
            return Err(DexError::ZeroAmount);
        }
        let usdc_out = pricing::cross_quote(eth_in, self.eth_rate, self.usdc_rate);
        if usdc_out < min_usdc_out {
            return Err(DexError::SlippageExceeded);
        }
        if self.usdc_reserve < usdc_out {
            return Err(DexError::InsufficientFunds);
        }
        self.usdc_reserve = self.usdc_reserve - usdc_out;
        self.eth_reserve = self.eth_reserve + eth_in;
        Ok(usdc_out)
    }

    /// The guard of `add_liquidity`: the shared prefix, with amount
    /// validation rejecting only a deposit of nothing at all.
    pub open spec fn add_liquidity_guard(
        self,
        xlm_amount: int,
        usdc_amount: int,
        eth_amount: int,
    ) -> Option<DexError> {
        if !self.initialized {
            Some(DexError::NotInit)
        } else if self.paused {
            Some(DexError::ContractPaused)
        } else if xlm_amount <= 0 && usdc_amount <= 0 && eth_amount <= 0 {
            Some(DexError::ZeroAmount)
        } else {
            None
        }
    }

    /// The guard of `remove_liquidity`: the shared prefix, then sufficiency
    /// of the provider's share balance.
    pub open spec fn remove_liquidity_guard(self, provider: u64, lp_amount: int) -> Option<
        DexError,
    > {
        if self.pre_guard(lp_amount) is Some {
            self.pre_guard(lp_amount)
        } else if balance_of(self.ledger@, provider) < lp_amount {
            Some(DexError::InsufficientLp)
        } else {
            None
        }
    }

    /// Deposits up to three amounts into the pool against newly issued
    /// shares. Share price is pegged to the rate table, not to pool depth, so
    /// a deposit is worth the same for the first and every later provider at
    /// a given rate snapshot. On success the caller moves each positive
    /// amount from the provider into custody.
    pub fn add_liquidity(
        &mut self,
        provider: u64,
        xlm_amount: i128,
        usdc_amount: i128,
        eth_amount: i128,
    ) -> (r: Result<i128, DexError>)
        requires
            old(self).wf(),
            xlm_amount >= 0,
            usdc_amount >= 0,
            eth_amount >= 0,
            old(self).add_liquidity_guard(
                xlm_amount as int,
                usdc_amount as int,
                eth_amount as int,
            ) is None ==> {
                let sh = shares_spec(
                    xlm_amount as int,
                    usdc_amount as int,
                    eth_amount as int,
                    old(self).usdc_rate as int,
                    old(self).eth_rate as int,
                );
                &&& sh <= i128::MAX
                &&& old(self).xlm_reserve + xlm_amount <= i128::MAX
                &&& old(self).usdc_reserve + usdc_amount <= i128::MAX
                &&& old(self).eth_reserve + eth_amount <= i128::MAX
                &&& old(self).total_shares + sh <= i128::MAX
            },
        ensures
            final(self).wf(),
            ({
                let s0 = *old(self);
                let s1 = *final(self);
                let g = s0.add_liquidity_guard(
                    xlm_amount as int,
                    usdc_amount as int,
                    eth_amount as int,
                );
                let sh = shares_spec(
                    xlm_amount as int,
                    usdc_amount as int,
                    eth_amount as int,
                    s0.usdc_rate as int,
                    s0.eth_rate as int,
                );
                match r {
                    Ok(got) => {
                        &&& g is None
                        &&& got as int == sh
                        &&& got > 0
                        &&& s1.xlm_reserve == s0.xlm_reserve + xlm_amount
                        &&& s1.usdc_reserve == s0.usdc_reserve + usdc_amount
                        &&& s1.eth_reserve == s0.eth_reserve + eth_amount
                        &&& s1.total_shares == s0.total_shares + sh
                        &&& balance_of(s1.ledger@, provider) == balance_of(s0.ledger@, provider)
                            + sh
                        &&& (forall|b: u64|
                            b != provider ==> balance_of(s1.ledger@, b) == balance_of(
                                s0.ledger@,
                                b,
                            ))
                        &&& s1.initialized == s0.initialized
                        &&& s1.admin == s0.admin
                        &&& s1.xlm_token == s0.xlm_token
                        &&& s1.usdc_token == s0.usdc_token
                        &&& s1.eth_token == s0.eth_token
                        &&& s1.usdc_rate == s0.usdc_rate
                        &&& s1.eth_rate == s0.eth_rate
                        &&& s1.total_usdc_minted == s0.total_usdc_minted
                        &&& s1.total_eth_minted == s0.total_eth_minted
                        &&& s1.paused == s0.paused
                    },
                    Err(e) => Some(e) == g && s1 == s0,
                }
            }),
    {
        if !self.initialized {
            return Err(DexError::NotInit);
        }
        if self.paused {
            return Err(DexError::ContractPaused);
        }
        if xlm_amount <= 0 && usdc_amount <= 0 && eth_amount <= 0 {
            return Err(DexError::ZeroAmount);
        }
        proof {
            lemma_mul_nonnegative(usdc_amount as int, self.usdc_rate as int);
            lemma_mul_nonnegative(eth_amount as int, self.eth_rate as int);
            if usdc_amount > 0 {
                lemma_mul_strictly_positive(usdc_amount as int, self.usdc_rate as int);
            }
            if eth_amount > 0 {
                lemma_mul_strictly_positive(eth_amount as int, self.eth_rate as int);
            }
            lemma_balance_le_sum(self.ledger@, provider);
        }
        let lp_shares = xlm_amount + usdc_amount * self.usdc_rate + eth_amount * self.eth_rate;
        self.xlm_reserve = self.xlm_reserve + xlm_amount;
        self.usdc_reserve = self.usdc_reserve + usdc_amount;
        self.eth_reserve = self.eth_reserve + eth_amount;
        self.total_shares = self.total_shares + lp_shares;
        ledger::credit(&mut self.ledger, provider, lp_shares);
        Ok(lp_shares)
    }

    /// Redeems `lp_amount` shares for a proportional cut of each reserve,
    /// rounded down, so redemption value never exceeds the proportional ideal
    /// and dust stays in the pool. On success the caller moves each positive
    /// output from custody to the provider.
    pub fn remove_liquidity(&mut self, provider: u64, lp_amount: i128) -> (r: Result<
        (i128, i128, i128),
        DexError,
    >)
        requires
            old(self).wf(),
            old(self).remove_liquidity_guard(provider, lp_amount as int) is None ==> {
                &&& lp_amount * old(self).xlm_reserve <= i128::MAX
                &&& lp_amount * old(self).usdc_reserve <= i128::MAX
                &&& lp_amount * old(self).eth_reserve <= i128::MAX
            },
        ensures
            final(self).wf(),
            ({
                let s0 = *old(self);
                let s1 = *final(self);
                let g = s0.remove_liquidity_guard(provider, lp_amount as int);
                match r {
                    Ok(out) => {
                        &&& g is None
                        &&& out.0 as int == redeem_spec(
                            lp_amount as int,
                            s0.xlm_reserve as int,
                            s0.total_shares as int,
                        )
                        &&& out.1 as int == redeem_spec(
                            lp_amount as int,
                            s0.usdc_reserve as int,
                            s0.total_shares as int,
                        )
                        &&& out.2 as int == redeem_spec(
                            lp_amount as int,
                            s0.eth_reserve as int,
                            s0.total_shares as int,
                        )
                        &&& s1.xlm_reserve == s0.xlm_reserve - out.0
                        &&& s1.usdc_reserve == s0.usdc_reserve - out.1
                        &&& s1.eth_reserve == s0.eth_reserve - out.2
                        &&& s1.total_shares == s0.total_shares - lp_amount
                        &&& balance_of(s1.ledger@, provider) == balance_of(s0.ledger@, provider)
                            - lp_amount
                        &&& (forall|b: u64|
                            b != provider ==> balance_of(s1.ledger@, b) == balance_of(
                                s0.ledger@,
                                b,
                            ))
                        &&& s1.initialized == s0.initialized
                        &&& s1.admin == s0.admin
                        &&& s1.xlm_token == s0.xlm_token
                        &&& s1.usdc_token == s0.usdc_token
                        &&& s1.eth_token == s0.eth_token
                        &&& s1.usdc_rate == s0.usdc_rate
                        &&& s1.eth_rate == s0.eth_rate
                        &&& s1.total_usdc_minted == s0.total_usdc_minted
                        &&& s1.total_eth_minted == s0.total_eth_minted
                        &&& s1.paused == s0.paused
                    },
                    Err(e) => Some(e) == g && s1 == s0,
                }
            }),
    {
        if !self.initialized {
            return Err(DexError::NotInit);
        }
        if self.paused {
            return Err(DexError::ContractPaused);
        }
        if lp_amount <= 0 {
            return Err(DexError::ZeroAmount);
        }
        let bal = ledger::balance(&self.ledger, provider);
        if bal < lp_amount {
            return Err(DexError::InsufficientLp);
        }
        proof {
            lemma_balance_le_sum(self.ledger@, provider);
            lemma_redeem_bounds(
                lp_amount as int,
                self.xlm_reserve as int,
                self.total_shares as int,
            );
            lemma_redeem_bounds(
                lp_amount as int,
                self.usdc_reserve as int,
                self.total_shares as int,
            );
            lemma_redeem_bounds(
                lp_amount as int,
                self.eth_reserve as int,
                self.total_shares as int,
            );
        }
        let xlm_out = (lp_amount * self.xlm_reserve) / self.total_shares;
        let usdc_out = (lp_amount * self.usdc_reserve) / self.total_shares;
        let eth_out = (lp_amount * self.eth_reserve) / self.total_shares;
        self.xlm_reserve = self.xlm_reserve - xlm_out;
        self.usdc_reserve = self.usdc_reserve - usdc_out;
        self.eth_reserve = self.eth_reserve - eth_out;
        self.total_shares = self.total_shares - lp_amount;
        ledger::debit(&mut self.ledger, provider, lp_amount);
        Ok((xlm_out, usdc_out, eth_out))
    }

    /// Previews `swap_xlm_for_usdc` pricing: identical to what the swap would
    /// compute for the same input and current rates. Reads nothing else and
    /// mutates nothing.
    pub fn quote_xlm_to_usdc(&self, xlm_in: i128) -> (r: Result<i128, DexError>)
        requires
            self.wf(),
            xlm_in >= 0,
            xlm_in * 997 <= i128::MAX,
        ensures
            match r {
                Ok(q) => self.initialized && q as int == base_to_quote_spec(
                    xlm_in as int,
                    self.usdc_rate as int,
                ),
                Err(e) => !self.initialized && e == DexError::NotInit,
            },
    {
        if !self.initialized {
            return Err(DexError::NotInit);
        }
        Ok(pricing::base_to_quote(xlm_in, self.usdc_rate))
    }

    /// Previews `swap_xlm_for_eth` pricing.
    pub fn quote_xlm_to_eth(&self, xlm_in: i128) -> (r: Result<i128, DexError>)
        requires
            self.wf(),
            xlm_in >= 0,
            xlm_in * 997 <= i128::MAX,
        ensures
            match r {
                Ok(q) => self.initialized && q as int == base_to_quote_spec(
                    xlm_in as int,
                    self.eth_rate as int,
                ),
                Err(e) => !self.initialized && e == DexError::NotInit,
            },
    {
        if !self.initialized {
            return Err(DexError::NotInit);
        }
        Ok(pricing::base_to_quote(xlm_in, self.eth_rate))
    }

    /// Previews `swap_usdc_for_xlm` pricing.
    pub fn quote_usdc_to_xlm(&self, usdc_in: i128) -> (r: Result<i128, DexError>)
        requires
            self.wf(),
            usdc_in >= 0,
            usdc_in * 997 <= i128::MAX,
            self.initialized ==> quote_to_base_spec(usdc_in as int, self.usdc_rate as int)
                <= i128::MAX,
        ensures
            match r {
                Ok(q) => self.initialized && q as int == quote_to_base_spec(
                    usdc_in as int,
                    self.usdc_rate as int,
                ),
                Err(e) => !self.initialized && e == DexError::NotInit,
            },
    {
        if !self.initialized {
            return Err(DexError::NotInit);
        }
        Ok(pricing::quote_to_base(usdc_in, self.usdc_rate))
    }

    /// Previews `swap_eth_for_xlm` pricing.
    pub fn quote_eth_to_xlm(&self, eth_in: i128) -> (r: Result<i128, DexError>)
        requires
            self.wf(),
            eth_in >= 0,
            eth_in * 997 <= i128::MAX,
            self.initialized ==> quote_to_base_spec(eth_in as int, self.eth_rate as int)
                <= i128::MAX,
        ensures
            match r {
                Ok(q) => self.initialized && q as int == quote_to_base_spec(
                    eth_in as int,
                    self.eth_rate as int,
                ),
                Err(e) => !self.initialized && e == DexError::NotInit,
            },
    {
        if !self.initialized {
            return Err(DexError::NotInit);
        }
        Ok(pricing::quote_to_base(eth_in, self.eth_rate))
    }

    /// The two configured rates, zero before initialization.
    pub fn get_rates(&self) -> (r: (i128, i128))
        ensures
            r == (self.usdc_rate, self.eth_rate),
    {
        (self.usdc_rate, self.eth_rate)
    }

    /// The three reserves: base asset, first quote asset, second quote asset.
    pub fn get_reserves(&self) -> (r: (i128, i128, i128))
        ensures
            r == (self.xlm_reserve, self.usdc_reserve, self.eth_reserve),
    {
        (self.xlm_reserve, self.usdc_reserve, self.eth_reserve)
    }

    /// The share balance of `user`, zero when it never deposited.
    pub fn lp_balance(&self, user: u64) -> (r: i128)
        ensures
            r == balance_of(self.ledger@, user),
    {
        ledger::balance(&self.ledger, user)
    }

    /// Total liquidity shares outstanding.
    pub fn total_lp(&self) -> (r: i128)
        ensures
            r == self.total_shares,
    {
        self.total_shares
    }

    /// Cumulative minted units of the two quote assets.
    pub fn mint_stats(&self) -> (r: (i128, i128))
        ensures
            r == (self.total_usdc_minted, self.total_eth_minted),
    {
        (self.total_usdc_minted, self.total_eth_minted)
    }

    /// Whether mutating operations are paused.
    pub fn is_paused(&self) -> (r: bool)
        ensures
            r == self.paused,
    {
        self.paused
    }
}

} // verus!
