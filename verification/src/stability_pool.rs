//! Stability pool: the fee reserve meant to defend the peg.
//!
//! The pool receives its share of protocol fees and liquidation proceeds. When
//! ENRK trades below the peg, a buyback removes ENRK from the pool's balance: it
//! is a burn of the pool's own ENRK, and the cost it reports is never debited
//! from anything.
use vstd::prelude::*;
use vstd::string::*;
use crate::clock::unix_now_seconds;
use crate::errors::{IgraError, IgraResult, invalid_parameters, calculation_overflow};
use crate::types::StabilityPool;

verus! {

/// Message of the error reported when the pool's totals would pass `i128::MAX`.
pub open spec fn pool_overflow_message() -> Seq<char> {
    "Stability pool totals exceed the representable range"@
}

/// The stability pool.
pub struct StabilityPoolManager {
    pool: StabilityPool,
}

/// Pool statistics.
#[derive(Debug, Clone, Copy, PartialEq, Eq, Structural)]
pub struct StabilityPoolStats {
    pub balance: i128,
    pub cumulative_fees: i128,
    pub last_buyback: u64,
}

impl StabilityPoolManager {
    pub closed spec fn state(&self) -> StabilityPool {
        self.pool
    }

    /// An empty pool.
    pub fn new() -> (r: StabilityPoolManager)
        ensures
            r.state() == (StabilityPool {
                enrk_balance: 0,
                cumulative_fees_collected: 0,
                last_buyback_seconds: 0,
            }),
    {
        StabilityPoolManager {
            pool: StabilityPool { enrk_balance: 0, cumulative_fees_collected: 0, last_buyback_seconds: 0 },
        }
    }

    /// Adds collected fees. The pool's share of `total_fees` under
    /// `stability_pool_allocation` percent is computed by `pool_share_of` (the
    /// protocol computes it in binary64 and truncates); the share is added to the
    /// balance and the whole of `total_fees` to the cumulative fees. Returns the
    /// share. Fees must be positive; a refusal changes nothing.
    pub fn deposit_fees(
        &mut self,
        total_fees: i128,
        stability_pool_allocation: u8,
        pool_share_of: impl Fn(i128, u8) -> u64,
    ) -> (r: IgraResult<i128>)
        requires
            forall|t: i128, a: u8| pool_share_of.requires((t, a)),
        ensures
            total_fees <= 0 ==> invalid_parameters(r, "Fees must be positive"@),
            r is Err ==> final(self).state() == old(self).state(),
            total_fees > 0 && r is Err ==> {
                &&& calculation_overflow(r, pool_overflow_message())
                &&& exists|share: u64|
                    pool_share_of.ensures((total_fees, stability_pool_allocation), share) && (old(
                        self,
                    ).state().enrk_balance + share > i128::MAX || old(
                        self,
                    ).state().cumulative_fees_collected + total_fees > i128::MAX)
            },
            r matches Ok(share) ==> {
                &&& total_fees > 0
                &&& 0 <= share <= u64::MAX
                &&& pool_share_of.ensures((total_fees, stability_pool_allocation), share as u64)
                &&& final(self).state().enrk_balance == old(self).state().enrk_balance + share
                &&& final(self).state().cumulative_fees_collected
                    == old(self).state().cumulative_fees_collected + total_fees
                &&& final(self).state().last_buyback_seconds == old(self).state().last_buyback_seconds
            },
    {
        if total_fees <= 0 {
            return Err(IgraError::InvalidParameters(String::from_str("Fees must be positive")));
        }
        let share = pool_share_of(total_fees, stability_pool_allocation);
        let new_balance = self.pool.enrk_balance.checked_add(share as i128);
        let new_cumulative = self.pool.cumulative_fees_collected.checked_add(total_fees);
        match (new_balance, new_cumulative) {
            (Some(balance), Some(cumulative)) => {
                self.pool.enrk_balance = balance;
                self.pool.cumulative_fees_collected = cumulative;
                Ok(share as i128)
            },
            _ => Err(
                IgraError::CalculationOverflow(
                    String::from_str("Stability pool totals exceed the representable range"),
                ),
            ),
        }
    }

    /// Buys back ENRK while its price is below the peg, removing
    /// `buyback_amount` from the pool's balance at time `now`. Checked in order:
    /// the price must be below the peg, the amount positive and covered by the
    /// balance, and its cost (`cost_of`, the amount at the ENRK price, truncated;
    /// `None` when not finite) computable. Returns (amount burned, cost). A
    /// refusal changes nothing.
    pub fn attempt_buyback_at(
        &mut self,
        price_below_peg: bool,
        buyback_amount: i128,
        cost_of: impl Fn(i128) -> Option<u64>,
        now: u64,
    ) -> (r: IgraResult<(i128, i128)>)
        requires
            forall|a: i128| cost_of.requires((a,)),
        ensures
            !price_below_peg ==> r == Err::<(i128, i128), IgraError>(IgraError::PriceAbovePeg),
            price_below_peg && buyback_amount <= 0 ==> invalid_parameters(
                r,
                "Buyback amount must be positive"@,
            ),
            price_below_peg && buyback_amount > 0 && old(self).state().enrk_balance < buyback_amount
                ==> r == Err::<(i128, i128), IgraError>(IgraError::BuybackExceedsPoolBalance),
            price_below_peg && buyback_amount > 0 && old(self).state().enrk_balance >= buyback_amount
                && r is Err ==> calculation_overflow(r, "Cost calculation overflowed"@)
                && cost_of.ensures((buyback_amount,), None::<u64>),
            r == Err::<(i128, i128), IgraError>(IgraError::PriceAbovePeg) ==> !price_below_peg,
            price_below_peg && 0 < buyback_amount <= old(self).state().enrk_balance && (forall|c: Option<
                u64,
            >| #[trigger] cost_of.ensures((buyback_amount,), c) ==> c is Some) ==> r is Ok,
            r is Err ==> final(self).state() == old(self).state(),
            r matches Ok((burned, cost)) ==> {
                &&& price_below_peg
                &&& burned == buyback_amount
                &&& 0 < buyback_amount <= old(self).state().enrk_balance
                &&& 0 <= cost <= u64::MAX
                &&& cost_of.ensures((buyback_amount,), Some(cost as u64))
                &&& final(self).state().enrk_balance == old(self).state().enrk_balance - buyback_amount
                &&& final(self).state().cumulative_fees_collected
                    == old(self).state().cumulative_fees_collected
                &&& final(self).state().last_buyback_seconds == now
            },
    {
        if !price_below_peg {
            return Err(IgraError::PriceAbovePeg);
        }
        if buyback_amount <= 0 {
            return Err(IgraError::InvalidParameters(String::from_str("Buyback amount must be positive")));
        }
        if self.pool.enrk_balance < buyback_amount {
            return Err(IgraError::BuybackExceedsPoolBalance);
        }
        let cost = match cost_of(buyback_amount) {
            Some(c) => c,
            None => {
                return Err(
                    IgraError::CalculationOverflow(String::from_str("Cost calculation overflowed")),
                );
            },
        };
        self.pool.enrk_balance = self.pool.enrk_balance - buyback_amount;
        self.pool.last_buyback_seconds = now;
        Ok((buyback_amount, cost as i128))
    }

    /// `attempt_buyback_at`, at the time the clock reads.
    pub fn attempt_buyback(
        &mut self,
        price_below_peg: bool,
        buyback_amount: i128,
        cost_of: impl Fn(i128) -> Option<u64>,
    ) -> (r: IgraResult<(i128, i128)>)
        requires
            forall|a: i128| cost_of.requires((a,)),
        ensures
            !price_below_peg ==> r == Err::<(i128, i128), IgraError>(IgraError::PriceAbovePeg),
            price_below_peg && buyback_amount <= 0 ==> invalid_parameters(
                r,
                "Buyback amount must be positive"@,
            ),
            price_below_peg && buyback_amount > 0 && old(self).state().enrk_balance < buyback_amount
                ==> r == Err::<(i128, i128), IgraError>(IgraError::BuybackExceedsPoolBalance),
            price_below_peg && buyback_amount > 0 && old(self).state().enrk_balance >= buyback_amount
                && r is Err ==> calculation_overflow(r, "Cost calculation overflowed"@)
                && cost_of.ensures((buyback_amount,), None::<u64>),
            r == Err::<(i128, i128), IgraError>(IgraError::PriceAbovePeg) ==> !price_below_peg,
            price_below_peg && 0 < buyback_amount <= old(self).state().enrk_balance && (forall|c: Option<
                u64,
            >| #[trigger] cost_of.ensures((buyback_amount,), c) ==> c is Some) ==> r is Ok,
            r is Err ==> final(self).state() == old(self).state(),
            r matches Ok((burned, cost)) ==> {
                &&& price_below_peg
                &&& burned == buyback_amount
                &&& 0 < buyback_amount <= old(self).state().enrk_balance
                &&& 0 <= cost <= u64::MAX
                &&& cost_of.ensures((buyback_amount,), Some(cost as u64))
                &&& final(self).state().enrk_balance == old(self).state().enrk_balance - buyback_amount
                &&& final(self).state().cumulative_fees_collected
                    == old(self).state().cumulative_fees_collected
            },
    {
        let now = unix_now_seconds();
        self.attempt_buyback_at(price_below_peg, buyback_amount, cost_of, now)
    }

    /// Current ENRK balance.
    pub fn balance(&self) -> (r: i128)
        ensures
            r == self.state().enrk_balance,
    {
        self.pool.enrk_balance
    }

    /// Cumulative fees collected (the whole fees, not only the pool's share).
    pub fn cumulative_fees(&self) -> (r: i128)
        ensures
            r == self.state().cumulative_fees_collected,
    {
        self.pool.cumulative_fees_collected
    }

    /// Whether the balance covers `amount`.
    pub fn has_sufficient_balance(&self, amount: i128) -> (r: bool)
        ensures
            r == (self.state().enrk_balance >= amount),
    {
        self.pool.enrk_balance >= amount
    }

    /// Time of the last buyback.
    pub fn last_buyback(&self) -> (r: u64)
        ensures
            r == self.state().last_buyback_seconds,
    {
        self.pool.last_buyback_seconds
    }

    /// Adds the proceeds of a liquidation to the balance. Proceeds may not be
    /// negative; a refusal changes nothing.
    pub fn deposit_liquidation_proceeds(&mut self, proceeds: i128) -> (r: IgraResult<()>)
        ensures
            proceeds < 0 ==> invalid_parameters(r, "Proceeds cannot be negative"@),
            proceeds >= 0 && old(self).state().enrk_balance + proceeds > i128::MAX ==> calculation_overflow(
                r,
                pool_overflow_message(),
            ),
            r is Err ==> final(self).state() == old(self).state(),
            proceeds >= 0 && old(self).state().enrk_balance + proceeds <= i128::MAX ==> {
                &&& r is Ok
                &&& final(self).state() == (StabilityPool {
                    enrk_balance: (old(self).state().enrk_balance + proceeds) as i128,
                    ..old(self).state()
                })
            },
    {
        if proceeds < 0 {
            return Err(IgraError::InvalidParameters(String::from_str("Proceeds cannot be negative")));
        }
        match self.pool.enrk_balance.checked_add(proceeds) {
            Some(balance) => {
                self.pool.enrk_balance = balance;
                Ok(())
            },
            None => Err(
                IgraError::CalculationOverflow(
                    String::from_str("Stability pool totals exceed the representable range"),
                ),
            ),
        }
    }

    /// Pool statistics.
    pub fn stats(&self) -> (r: StabilityPoolStats)
        ensures
            r.balance == self.state().enrk_balance,
            r.cumulative_fees == self.state().cumulative_fees_collected,
            r.last_buyback == self.state().last_buyback_seconds,
    {
        StabilityPoolStats {
            balance: self.pool.enrk_balance,
            cumulative_fees: self.pool.cumulative_fees_collected,
            last_buyback: self.pool.last_buyback_seconds,
        }
    }
}

} // verus!
