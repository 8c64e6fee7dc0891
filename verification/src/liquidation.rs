//! Liquidation: Dutch auctions of under-collateralised vaults.
//!
//! A vault below the MCR can be put up for auction. Its collateral is offered at
//! a price that descends linearly from 100% to the end price over the auction's
//! duration; the first sufficient bid settles the auction. An auction that
//! expires without a bid is finalised and removed.
//!
//! Prices are binary64 values: the collateral ratio, the auction's current price
//! and what a bid buys are computed from them in floating point and handed in;
//! this module keeps the auctions and decides on those results. An auction that
//! would start after the given time counts as not expired.
use vstd::prelude::*;
use vstd::string::*;
use crate::clock::unix_now_seconds;
use crate::errors::{IgraError, IgraResult, invalid_parameters, calculation_overflow};
use crate::types::{LiquidationAuction, LiquidationParams, Vault};

verus! {

/// Message of the error reported when an auction id or a debt total would pass
/// its integer range.
pub open spec fn auction_overflow_message() -> Seq<char> {
    "Auction values exceed the representable range"@
}

/// The auction has run its full duration by `now`.
pub open spec fn expired_by(a: LiquidationAuction, now: u64) -> bool {
    now >= a.started_at_seconds && a.expired_at(now)
}

/// The auctions of `s` not expired at `now`, in order.
pub open spec fn active_auctions(s: Seq<LiquidationAuction>, now: u64) -> Seq<LiquidationAuction> {
    s.filter(|a: LiquidationAuction| !expired_by(a, now))
}

/// The auctions of `s` expired at `now`, in order.
pub open spec fn expired_auctions(s: Seq<LiquidationAuction>, now: u64) -> Seq<LiquidationAuction> {
    s.filter(|a: LiquidationAuction| expired_by(a, now))
}

/// The liquidation manager.
pub struct LiquidationManager {
    auctions: Vec<LiquidationAuction>,
    next_auction_id: u64,
    auction_params: LiquidationParams,
}

impl LiquidationManager {
    /// Auction ids are distinct and below the next id; no vault has two
    /// auctions; the parameters are valid.
    pub closed spec fn wf(&self) -> bool {
        &&& forall|i: int, j: int|
            0 <= i < j < self.auctions@.len() ==> #[trigger] self.auctions@[i].auction_id
                != #[trigger] self.auctions@[j].auction_id && self.auctions@[i].vault_id
                != self.auctions@[j].vault_id
        &&& forall|i: int|
            0 <= i < self.auctions@.len() ==> #[trigger] self.auctions@[i].auction_id
                < self.next_auction_id
        &&& self.next_auction_id >= 1
        &&& self.auction_params.is_valid()
    }

    /// The open auctions, in order of creation.
    pub closed spec fn auctions_spec(&self) -> Seq<LiquidationAuction> {
        self.auctions@
    }

    pub closed spec fn next_id(&self) -> u64 {
        self.next_auction_id
    }

    pub closed spec fn params_spec(&self) -> LiquidationParams {
        self.auction_params
    }

    /// Position of auction `id`, if open.
    pub open spec fn has_auction(&self, id: u64) -> bool {
        exists|i: int| 0 <= i < self.auctions_spec().len() && #[trigger] self.auctions_spec()[i].auction_id == id
    }

    pub open spec fn position_of(&self, id: u64) -> int {
        choose|i: int| 0 <= i < self.auctions_spec().len() && #[trigger] self.auctions_spec()[i].auction_id == id
    }

    pub open spec fn auction(&self, id: u64) -> LiquidationAuction {
        self.auctions_spec()[self.position_of(id)]
    }

    /// Some open auction is for vault `vault_id`.
    pub open spec fn vault_in_auction(&self, vault_id: u64) -> bool {
        exists|i: int| 0 <= i < self.auctions_spec().len() && #[trigger] self.auctions_spec()[i].vault_id == vault_id
    }

    /// A manager with no auctions and the given valid parameters.
    pub fn new(auction_params: LiquidationParams) -> (r: IgraResult<LiquidationManager>)
        ensures
            !auction_params.is_valid() ==> invalid_parameters(r, auction_params.error_message()),
            auction_params.is_valid() ==> (r matches Ok(m) && m.wf() && m.auctions_spec().len() == 0
                && m.next_id() == 1 && m.params_spec() == auction_params),
    {
        match auction_params.validate() {
            Err(e) => Err(IgraError::InvalidParameters(e)),
            Ok(()) => Ok(LiquidationManager { auctions: Vec::new(), next_auction_id: 1, auction_params }),
        }
    }

    fn find(&self, auction_id: u64) -> (r: Option<usize>)
        requires
            self.wf(),
        ensures
            match r {
                Some(i) => self.has_auction(auction_id) && i == self.position_of(auction_id) && i
                    < self.auctions_spec().len(),
                None => !self.has_auction(auction_id),
            },
    {
        let n = self.auctions.len();
        let mut i: usize = 0;
        while i < n
            invariant
                0 <= i <= n,
                n == self.auctions@.len(),
                self.wf(),
                forall|j: int| 0 <= j < i ==> #[trigger] self.auctions@[j].auction_id != auction_id,
            decreases n - i,
        {
            if self.auctions[i].auction_id == auction_id {
                proof {
                    assert(self.auctions_spec()[i as int].auction_id == auction_id);
                    assert(self.has_auction(auction_id));
                    let p = self.position_of(auction_id);
                    assert(0 <= p < self.auctions@.len());
                    assert(self.auctions@[i as int].auction_id == auction_id);
                    if p != i {
                        assert(self.auctions@[p].auction_id == auction_id);
                        if p < i {
                            assert(self.auctions@[p].auction_id != self.auctions@[i as int].auction_id);
                        } else {
                            assert(self.auctions@[i as int].auction_id != self.auctions@[p].auction_id);
                        }
                    }
                }
                return Some(i);
            }
            i += 1;
        }
        None
    }

    fn vault_has_auction(&self, vault_id: u64) -> (r: bool)
        ensures
            r == self.vault_in_auction(vault_id),
    {
        let n = self.auctions.len();
        let mut i: usize = 0;
        while i < n
            invariant
                0 <= i <= n,
                n == self.auctions@.len(),
                forall|j: int| 0 <= j < i ==> #[trigger] self.auctions@[j].vault_id != vault_id,
            decreases n - i,
        {
            if self.auctions[i].vault_id == vault_id {
                assert(self.auctions_spec()[i as int].vault_id == vault_id);
                return true;
            }
            i += 1;
        }
        false
    }

    /// Opens an auction for `vault`, which must be under-collateralised at
    /// `mcr_trigger` (as `under_collateralized` reports; `icr_percent` is its ICR
    /// in whole percent, reported when it is not) and must not already be in an
    /// auction. The auction offers the vault's collateral against its whole debt
    /// and starts at `now`. Returns the auction's id. A refusal changes nothing.
    pub fn start_liquidation_at(
        &mut self,
        vault: &Vault,
        under_collateralized: bool,
        icr_percent: u16,
        mcr_trigger: u16,
        now: u64,
    ) -> (r: IgraResult<u64>)
        requires
            old(self).wf(),
        ensures
            final(self).wf(),
            !under_collateralized ==> r == Err::<u64, IgraError>(
                IgraError::VaultHealthy { icr: icr_percent, mcr: mcr_trigger },
            ),
            under_collateralized && old(self).vault_in_auction(vault.vault_id) ==> r == Err::<
                u64,
                IgraError,
            >(IgraError::AuctionAlreadyExists(vault.vault_id)),
            under_collateralized && !old(self).vault_in_auction(vault.vault_id) && (old(self).next_id()
                == u64::MAX || vault.debt_enrk + vault.debt_kfiat > i128::MAX || vault.debt_enrk
                + vault.debt_kfiat < i128::MIN) ==> calculation_overflow(r, auction_overflow_message()),
            under_collateralized && !old(self).vault_in_auction(vault.vault_id) && old(self).next_id()
                < u64::MAX && i128::MIN <= vault.debt_enrk + vault.debt_kfiat <= i128::MAX ==> r is Ok,
            r is Err ==> *final(self) == *old(self),
            r matches Ok(id) ==> {
                &&& under_collateralized && !old(self).vault_in_auction(vault.vault_id)
                &&& id == old(self).next_id()
                &&& final(self).next_id() == old(self).next_id() + 1
                &&& final(self).params_spec() == old(self).params_spec()
                &&& final(self).auctions_spec() == old(self).auctions_spec().push(
                    LiquidationAuction {
                        auction_id: id,
                        vault_id: vault.vault_id,
                        collateral_kas: vault.collateral_kas,
                        debt_to_cover: (vault.debt_enrk + vault.debt_kfiat) as i128,
                        started_at_seconds: now,
                        duration_minutes: old(self).params_spec().duration_minutes,
                    },
                )
            },
    {
        if !under_collateralized {
            return Err(IgraError::VaultHealthy { icr: icr_percent, mcr: mcr_trigger });
        }
        if self.vault_has_auction(vault.vault_id) {
            return Err(IgraError::AuctionAlreadyExists(vault.vault_id));
        }
        let debt = vault.debt_enrk.checked_add(vault.debt_kfiat);
        if self.next_auction_id == u64::MAX || debt.is_none() {
            return Err(
                IgraError::CalculationOverflow(
                    String::from_str("Auction values exceed the representable range"),
                ),
            );
        }
        let auction_id = self.next_auction_id;
        self.next_auction_id = self.next_auction_id + 1;
        let auction = LiquidationAuction {
            auction_id,
            vault_id: vault.vault_id,
            collateral_kas: vault.collateral_kas,
            debt_to_cover: debt.unwrap(),
            started_at_seconds: now,
            duration_minutes: self.auction_params.duration_minutes,
        };
        let ghost before = self.auctions@;
        self.auctions.push(auction);
        proof {
            let after = self.auctions@;
            assert forall|p: int, q: int| 0 <= p < q < after.len() implies #[trigger] after[p].auction_id
                != #[trigger] after[q].auction_id && after[p].vault_id != after[q].vault_id by {
                assert(after[p] == before[p]);
                if q < before.len() {
                    assert(after[q] == before[q]);
                } else {
                    assert(before[p].auction_id < auction_id);
                    assert(before[p].vault_id != vault.vault_id) by {
                        if before[p].vault_id == vault.vault_id {
                            assert(self.auctions_spec() == after);
                            assert(old(self).auctions_spec()[p].vault_id == vault.vault_id);
                        }
                    }
                }
            }
            assert forall|p: int| 0 <= p < after.len() implies #[trigger] after[p].auction_id
                < self.next_auction_id by {
                if p < before.len() {
                    assert(after[p] == before[p]);
                }
            }
        }
        Ok(auction_id)
    }

    /// `start_liquidation_at`, starting the auction at the time the clock reads.
    pub fn start_liquidation(
        &mut self,
        vault: &Vault,
        under_collateralized: bool,
        icr_percent: u16,
        mcr_trigger: u16,
    ) -> (r: IgraResult<u64>)
        requires
            old(self).wf(),
        ensures
            final(self).wf(),
            !under_collateralized ==> r == Err::<u64, IgraError>(
                IgraError::VaultHealthy { icr: icr_percent, mcr: mcr_trigger },
            ),
            under_collateralized && old(self).vault_in_auction(vault.vault_id) ==> r == Err::<
                u64,
                IgraError,
            >(IgraError::AuctionAlreadyExists(vault.vault_id)),
            under_collateralized && !old(self).vault_in_auction(vault.vault_id) && old(self).next_id()
                < u64::MAX && i128::MIN <= vault.debt_enrk + vault.debt_kfiat <= i128::MAX ==> r is Ok,
            under_collateralized && !old(self).vault_in_auction(vault.vault_id) && (old(self).next_id()
                == u64::MAX || vault.debt_enrk + vault.debt_kfiat > i128::MAX || vault.debt_enrk
                + vault.debt_kfiat < i128::MIN) ==> calculation_overflow(r, auction_overflow_message()),
            r is Err ==> *final(self) == *old(self),
            r matches Ok(id) ==> {
                let a = final(self).auctions_spec().last();
                &&& under_collateralized && !old(self).vault_in_auction(vault.vault_id)
                &&& id == old(self).next_id()
                &&& final(self).next_id() == old(self).next_id() + 1
                &&& final(self).auctions_spec() == old(self).auctions_spec().push(a)
                &&& a == LiquidationAuction {
                    auction_id: id,
                    vault_id: vault.vault_id,
                    collateral_kas: vault.collateral_kas,
                    debt_to_cover: (vault.debt_enrk + vault.debt_kfiat) as i128,
                    started_at_seconds: a.started_at_seconds,
                    duration_minutes: old(self).params_spec().duration_minutes,
                }
            },
    {
        let now = unix_now_seconds();
        self.start_liquidation_at(vault, under_collateralized, icr_percent, mcr_trigger, now)
    }

    /// The open auction with the given id.
    pub fn get_auction(&self, auction_id: u64) -> (r: IgraResult<LiquidationAuction>)
        requires
            self.wf(),
        ensures
            self.has_auction(auction_id) ==> r == Ok::<LiquidationAuction, IgraError>(
                self.auction(auction_id),
            ),
            !self.has_auction(auction_id) ==> r == Err::<LiquidationAuction, IgraError>(
                IgraError::AuctionNotFound(auction_id),
            ),
    {
        match self.find(auction_id) {
            Some(i) => Ok(self.auctions[i]),
            None => Err(IgraError::AuctionNotFound(auction_id)),
        }
    }

    /// Submits a bid of `bid_amount` stablecoins at time `now`. Checked in order:
    /// the bid is positive, the auction exists and has not expired; then
    /// `collateral_for` (given the auction, the bid and `now`) prices the bid at
    /// the auction's current price and returns the KAS it buys or refuses it;
    /// the KAS may not exceed the auction's collateral. The fee is `fee_of` the
    /// bid at `liquidation_fee_bps`. An accepted bid settles and removes the
    /// auction and returns (KAS received, fee). A refusal changes nothing.
    pub fn submit_bid_at(
        &mut self,
        auction_id: u64,
        bid_amount: i128,
        liquidation_fee_bps: u16,
        now: u64,
        collateral_for: impl Fn(&LiquidationAuction, i128, u64) -> IgraResult<i128>,
        fee_of: impl Fn(i128, u16) -> u64,
    ) -> (r: IgraResult<(i128, i128)>)
        requires
            old(self).wf(),
            forall|a: &LiquidationAuction, b: i128, t: u64| collateral_for.requires((a, b, t)),
            forall|b: i128, f: u16| fee_of.requires((b, f)),
        ensures
            final(self).wf(),
            bid_amount <= 0 ==> invalid_parameters(r, "Bid amount must be positive"@),
            bid_amount > 0 && !old(self).has_auction(auction_id) ==> r == Err::<(i128, i128), IgraError>(
                IgraError::AuctionNotFound(auction_id),
            ),
            bid_amount > 0 && old(self).has_auction(auction_id) && expired_by(
                old(self).auction(auction_id),
                now,
            ) ==> r == Err::<(i128, i128), IgraError>(IgraError::AuctionExpired),
            r == Err::<(i128, i128), IgraError>(IgraError::AuctionExpired) ==> bid_amount > 0
                && old(self).has_auction(auction_id) && (expired_by(old(self).auction(auction_id), now)
                || collateral_for.ensures(
                (&old(self).auction(auction_id), bid_amount, now),
                Err::<i128, IgraError>(IgraError::AuctionExpired),
            )),
            r is Err ==> *final(self) == *old(self),
            bid_amount > 0 && old(self).has_auction(auction_id) && !expired_by(
                old(self).auction(auction_id),
                now,
            ) && r is Err ==> {
                let a = old(self).auction(auction_id);
                ||| exists|e: IgraError|
                    collateral_for.ensures((&a, bid_amount, now), Err::<i128, IgraError>(e)) && r
                        == Err::<(i128, i128), IgraError>(e)
                ||| r == Err::<(i128, i128), IgraError>(IgraError::BidExceedsCollateral) && exists|
                    kas: i128,
                | collateral_for.ensures((&a, bid_amount, now), Ok::<i128, IgraError>(kas)) && kas
                    > a.collateral_kas
            },
            r matches Ok((kas, fee)) ==> {
                let a = old(self).auction(auction_id);
                &&& bid_amount > 0 && old(self).has_auction(auction_id) && !expired_by(a, now)
                &&& collateral_for.ensures((&a, bid_amount, now), Ok::<i128, IgraError>(kas))
                &&& kas <= a.collateral_kas
                &&& 0 <= fee <= u64::MAX
                &&& fee_of.ensures((bid_amount, liquidation_fee_bps), fee as u64)
                &&& final(self).auctions_spec() == old(self).auctions_spec().remove(
                    old(self).position_of(auction_id),
                )
                &&& !final(self).has_auction(auction_id)
                &&& final(self).next_id() == old(self).next_id()
                &&& final(self).params_spec() == old(self).params_spec()
            },
    {
        if bid_amount <= 0 {
            return Err(IgraError::InvalidParameters(String::from_str("Bid amount must be positive")));
        }
        let i = match self.find(auction_id) {
            Some(i) => i,
            None => {
                return Err(IgraError::AuctionNotFound(auction_id));
            },
        };
        let auction = self.auctions[i];
        if now >= auction.started_at_seconds && auction.is_expired(now) {
            return Err(IgraError::AuctionExpired);
        }
        let quote = collateral_for(&auction, bid_amount, now);
        let kas = match quote {
            Ok(k) => k,
            Err(e) => {
                return Err(e);
            },
        };
        if kas > auction.collateral_kas {
            assert(collateral_for.ensures((&old(self).auction(auction_id), bid_amount, now), Ok::<
                i128,
                IgraError,
            >(kas)));
            return Err(IgraError::BidExceedsCollateral);
        }
        let fee = fee_of(bid_amount, liquidation_fee_bps);
        self.remove_at(i);
        Ok((kas, fee as i128))
    }

    /// `submit_bid_at` at the time the clock reads.
    pub fn submit_bid(
        &mut self,
        auction_id: u64,
        bid_amount: i128,
        liquidation_fee_bps: u16,
        collateral_for: impl Fn(&LiquidationAuction, i128, u64) -> IgraResult<i128>,
        fee_of: impl Fn(i128, u16) -> u64,
    ) -> (r: IgraResult<(i128, i128)>)
        requires
            old(self).wf(),
            forall|a: &LiquidationAuction, b: i128, t: u64| collateral_for.requires((a, b, t)),
            forall|b: i128, f: u16| fee_of.requires((b, f)),
        ensures
            final(self).wf(),
            bid_amount <= 0 ==> invalid_parameters(r, "Bid amount must be positive"@),
            bid_amount > 0 && !old(self).has_auction(auction_id) ==> r == Err::<(i128, i128), IgraError>(
                IgraError::AuctionNotFound(auction_id),
            ),
            r == Err::<(i128, i128), IgraError>(IgraError::AuctionExpired) ==> old(self).has_auction(
                auction_id,
            ) && exists|now: u64|
                #[trigger] expired_by(old(self).auction(auction_id), now) || collateral_for.ensures(
                    (&old(self).auction(auction_id), bid_amount, now),
                    Err::<i128, IgraError>(IgraError::AuctionExpired),
                ),
            r is Err ==> *final(self) == *old(self),
            r matches Ok((kas, fee)) ==> {
                let a = old(self).auction(auction_id);
                &&& bid_amount > 0 && old(self).has_auction(auction_id)
                &&& exists|now: u64|
                    !expired_by(a, now) && #[trigger] collateral_for.ensures(
                        (&a, bid_amount, now),
                        Ok::<i128, IgraError>(kas),
                    )
                &&& !final(self).has_auction(auction_id)
                &&& kas <= a.collateral_kas
                &&& 0 <= fee <= u64::MAX
                &&& fee_of.ensures((bid_amount, liquidation_fee_bps), fee as u64)
                &&& final(self).auctions_spec() == old(self).auctions_spec().remove(
                    old(self).position_of(auction_id),
                )
            },
    {
        let now = unix_now_seconds();
        self.submit_bid_at(auction_id, bid_amount, liquidation_fee_bps, now, collateral_for, fee_of)
    }

    fn remove_at(&mut self, i: usize)
        requires
            old(self).wf(),
            i < old(self).auctions@.len(),
        ensures
            final(self).wf(),
            final(self).auctions_spec() == old(self).auctions_spec().remove(i as int),
            final(self).next_id() == old(self).next_id(),
            final(self).params_spec() == old(self).params_spec(),
            !final(self).has_auction(old(self).auctions_spec()[i as int].auction_id),
    {
        let ghost before = self.auctions@;
        let ghost gone = before[i as int].auction_id;
        self.auctions.remove(i);
        proof {
            let after = self.auctions@;
            assert forall|p: int| 0 <= p < after.len() implies #[trigger] after[p].auction_id != gone by {
                let p0 = if p < i { p } else { p + 1 };
                assert(after[p] == before[p0]);
            }
            assert forall|p: int, q: int| 0 <= p < q < after.len() implies #[trigger] after[p].auction_id
                != #[trigger] after[q].auction_id && after[p].vault_id != after[q].vault_id by {
                let p0 = if p < i { p } else { p + 1 };
                let q0 = if q < i { q } else { q + 1 };
                assert(after[p] == before[p0] && after[q] == before[q0]);
                assert(before[p0].auction_id != before[q0].auction_id);
            }
            assert forall|p: int| 0 <= p < after.len() implies #[trigger] after[p].auction_id
                < self.next_auction_id by {
                let p0 = if p < i { p } else { p + 1 };
                assert(after[p] == before[p0]);
            }
        }
    }

    fn select(&self, now: u64, want_expired: bool) -> (r: Vec<LiquidationAuction>)
        ensures
            r@ == self.auctions_spec().filter(
                |a: LiquidationAuction| expired_by(a, now) == want_expired,
            ),
    {
        let n = self.auctions.len();
        let mut out: Vec<LiquidationAuction> = Vec::new();
        let mut i: usize = 0;
        let ghost keep = |a: LiquidationAuction| expired_by(a, now) == want_expired;
        while i < n
            invariant
                0 <= i <= n,
                n == self.auctions@.len(),
                keep == (|a: LiquidationAuction| expired_by(a, now) == want_expired),
                out@ == self.auctions@.take(i as int).filter(keep),
            decreases n - i,
        {
            proof {
                reveal_with_fuel(Seq::filter, 1);
                assert(self.auctions@.take(i as int + 1).drop_last() =~= self.auctions@.take(i as int));
            }
            let a = self.auctions[i];
            let expired = now >= a.started_at_seconds && a.is_expired(now);
            if expired == want_expired {
                out.push(a);
            }
            i += 1;
        }
        assert(self.auctions@.take(n as int) =~= self.auctions@);
        out
    }

    /// The auctions not expired at `now`, in order of creation.
    pub fn get_active_auctions_at(&self, now: u64) -> (r: Vec<LiquidationAuction>)
        ensures
            r@ == active_auctions(self.auctions_spec(), now),
    {
        let r = self.select(now, false);
        assert(r@ =~= self.auctions_spec().filter(|a: LiquidationAuction| !expired_by(a, now))) by {
            assert((|a: LiquidationAuction| expired_by(a, now) == false) =~= (|a: LiquidationAuction|
                !expired_by(a, now)));
        }
        r
    }

    /// The auctions expired at `now`, in order of creation.
    pub fn get_expired_auctions_at(&self, now: u64) -> (r: Vec<LiquidationAuction>)
        ensures
            r@ == expired_auctions(self.auctions_spec(), now),
    {
        let r = self.select(now, true);
        assert(r@ =~= self.auctions_spec().filter(|a: LiquidationAuction| expired_by(a, now))) by {
            assert((|a: LiquidationAuction| expired_by(a, now) == true) =~= (|a: LiquidationAuction|
                expired_by(a, now)));
        }
        r
    }

    /// The auctions not expired now, by the clock.
    pub fn get_active_auctions(&self) -> (r: Vec<LiquidationAuction>)
        ensures
            exists|now: u64| r@ == #[trigger] active_auctions(self.auctions_spec(), now),
    {
        let now = unix_now_seconds();
        self.get_active_auctions_at(now)
    }

    /// The auctions expired now, by the clock.
    pub fn get_expired_auctions(&self) -> (r: Vec<LiquidationAuction>)
        ensures
            exists|now: u64| r@ == #[trigger] expired_auctions(self.auctions_spec(), now),
    {
        let now = unix_now_seconds();
        self.get_expired_auctions_at(now)
    }

    /// Removes an auction that expired without a bid by `now`. An auction still
    /// running is refused. A refusal changes nothing.
    pub fn finalize_expired_auction_at(&mut self, auction_id: u64, now: u64) -> (r: IgraResult<()>)
        requires
            old(self).wf(),
        ensures
            final(self).wf(),
            !old(self).has_auction(auction_id) ==> r == Err::<(), IgraError>(
                IgraError::AuctionNotFound(auction_id),
            ),
            old(self).has_auction(auction_id) && !expired_by(old(self).auction(auction_id), now) ==> r
                == Err::<(), IgraError>(IgraError::AuctionStillActive),
            r is Err ==> *final(self) == *old(self),
            old(self).has_auction(auction_id) && expired_by(old(self).auction(auction_id), now) ==> {
                &&& r is Ok
                &&& final(self).auctions_spec() == old(self).auctions_spec().remove(
                    old(self).position_of(auction_id),
                )
                &&& !final(self).has_auction(auction_id)
                &&& final(self).next_id() == old(self).next_id()
                &&& final(self).params_spec() == old(self).params_spec()
            },
    {
        let i = match self.find(auction_id) {
            Some(i) => i,
            None => {
                return Err(IgraError::AuctionNotFound(auction_id));
            },
        };
        let auction = self.auctions[i];
        if !(now >= auction.started_at_seconds && auction.is_expired(now)) {
            return Err(IgraError::AuctionStillActive);
        }
        self.remove_at(i);
        Ok(())
    }

    /// `finalize_expired_auction_at` at the time the clock reads.
    pub fn finalize_expired_auction(&mut self, auction_id: u64) -> (r: IgraResult<()>)
        requires
            old(self).wf(),
        ensures
            final(self).wf(),
            !old(self).has_auction(auction_id) ==> r == Err::<(), IgraError>(
                IgraError::AuctionNotFound(auction_id),
            ),
            r is Err ==> *final(self) == *old(self),
            r is Ok ==> old(self).has_auction(auction_id) && final(self).auctions_spec()
                == old(self).auctions_spec().remove(old(self).position_of(auction_id))
                && !final(self).has_auction(auction_id),
            r is Ok ==> exists|now: u64| #[trigger] expired_by(old(self).auction(auction_id), now),
            old(self).has_auction(auction_id) ==> r is Ok || r == Err::<(), IgraError>(
                IgraError::AuctionStillActive,
            ),
            r == Err::<(), IgraError>(IgraError::AuctionStillActive) ==> old(self).has_auction(
                auction_id,
            ) && exists|now: u64| !#[trigger] expired_by(old(self).auction(auction_id), now),
    {
        let now = unix_now_seconds();
        self.finalize_expired_auction_at(auction_id, now)
    }

    /// Number of open auctions.
    pub fn auction_count(&self) -> (r: usize)
        ensures
            r == self.auctions_spec().len(),
    {
        self.auctions.len()
    }

    /// The frozen auction parameters.
    pub fn params(&self) -> (r: LiquidationParams)
        ensures
            r == self.params_spec(),
    {
        self.auction_params
    }
}

/// Expiry is permanent: an auction expired at `t1` is still expired at any
/// later time.
pub proof fn lemma_expiry_is_permanent(a: LiquidationAuction, t1: u64, t2: u64)
    requires
        expired_by(a, t1),
        t1 <= t2,
    ensures
        expired_by(a, t2),
{
    vstd::arithmetic::div_mod::lemma_div_is_ordered(
        t1 - a.started_at_seconds,
        t2 - a.started_at_seconds,
        60,
    );
}

/// At any time every open auction is either active or expired: the two
/// listings split the open auctions between them.
pub proof fn lemma_listings_partition(s: Seq<LiquidationAuction>, now: u64)
    ensures
        active_auctions(s, now).len() + expired_auctions(s, now).len() == s.len(),
        forall|a: LiquidationAuction|
            s.contains(a) ==> (active_auctions(s, now).contains(a) <==> !expired_auctions(
                s,
                now,
            ).contains(a)),
    decreases s.len(),
{
    reveal_with_fuel(Seq::filter, 1);
    let pa = |a: LiquidationAuction| !expired_by(a, now);
    let pe = |a: LiquidationAuction| expired_by(a, now);
    if s.len() > 0 {
        lemma_listings_partition(s.drop_last(), now);
        assert(s.drop_last().push(s.last()) =~= s);
    }
    assert forall|a: LiquidationAuction| s.contains(a) implies (active_auctions(s, now).contains(a)
        <==> !expired_auctions(s, now).contains(a)) by {
        let i = choose|i: int| 0 <= i < s.len() && s[i] == a;
        if expired_by(a, now) {
            s.lemma_filter_contains(pe, i);
            if active_auctions(s, now).contains(a) {
                s.lemma_filter_contains_rev(pa, a);
            }
        } else {
            s.lemma_filter_contains(pa, i);
            if expired_auctions(s, now).contains(a) {
                s.lemma_filter_contains_rev(pe, a);
            }
        }
    }
}

/// An auction has expired exactly when at least its duration, counted in
/// whole minutes of 60 seconds from its start, has passed.
pub proof fn lemma_expiry_in_seconds(a: LiquidationAuction, now: u64)
    ensures
        expired_by(a, now) <==> now >= a.started_at_seconds + 60 * a.duration_minutes,
{
    if now >= a.started_at_seconds {
        let t = now - a.started_at_seconds;
        vstd::arithmetic::div_mod::lemma_fundamental_div_mod(t, 60);
        vstd::arithmetic::div_mod::lemma_mod_pos_bound(t, 60);
        let q = t / 60;
        assert(q >= a.duration_minutes <==> t >= 60 * a.duration_minutes) by (nonlinear_arith)
            requires
                t == 60 * q + t % 60,
                0 <= t % 60 < 60,
        ;
    }
}

} // verus!
