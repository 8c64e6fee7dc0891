//! Vaults: over-collateralised debt positions holding KAS and owing ENRK (senior
//! tranche) and kFIAT (junior tranche).
//!
//! A mint must leave the vault's ICR at or above the minimum (200%); a vault
//! below the MCR (150%) is eligible for liquidation. kFIAT minted through vaults
//! is capped at a share of all vaults' debt.
//!
//! Prices are binary64 values and collateral ratios are computed from them in
//! floating point; those computations are handed in as functions (`fee_of`,
//! `icr_of`, `cap_breach_of`, `is_under`) and this module decides on their
//! results. Vault ids are 1, 2, 3, ... in order of creation, and vaults are never
//! removed.
use vstd::prelude::*;
use vstd::string::*;
use crate::clock::unix_now_seconds;
use crate::errors::{IgraError, IgraResult, invalid_address, invalid_parameters, calculation_overflow};
use crate::kaspa_tokens::u64_or;
use crate::types::{CollateralRatios, FeeStructure, Vault, VaultStatus};
use crate::vault_sums::{
    VaultAmount, amounts_nonnegative, lemma_sum_bounds, lemma_sum_push, lemma_sum_update,
    sum_amount,
};

verus! {

/// Message of the error reported when a total over all vaults would pass
/// `i128::MAX`.
pub open spec fn vault_overflow_message() -> Seq<char> {
    "Vault totals exceed the representable range"@
}

/// The vault manager.
pub struct VaultManager {
    vaults: Vec<Vault>,
    next_vault_id: u64,
    collateral_ratios: CollateralRatios,
    fees: FeeStructure,
    kfiat_cap_percent: u8,
}

fn to_u64_or(x: i128, default: u64) -> (r: u64)
    ensures
        r == u64_or(x as int, default),
{
    if 0 <= x && x <= u64::MAX as i128 {
        x as u64
    } else {
        default
    }
}

/// The ids of the vaults in `s`, in order.
pub open spec fn ids_of(s: Seq<Vault>) -> Seq<u64> {
    s.map_values(|v: Vault| v.vault_id)
}

/// `is_under` can only report `v` as under-collateralised at MCR `mcr`.
pub open spec fn surely_under<F: Fn(&Vault, u16) -> bool>(is_under: F, v: &Vault, mcr: u16) -> bool {
    forall|b: bool| is_under.ensures((v, mcr), b) ==> b
}

/// Every ICR that `icr_of` can report for `v` is at least `min`.
pub open spec fn surely_at_least<F: Fn(&Vault) -> u16>(icr_of: F, v: &Vault, min: u16) -> bool {
    forall|icr: u16| #[trigger] icr_of.ensures((v,), icr) ==> icr >= min
}

/// Every ICR that `icr_of` can report for `v` is below `min`.
pub open spec fn surely_below<F: Fn(&Vault) -> u16>(icr_of: F, v: &Vault, min: u16) -> bool {
    forall|icr: u16| #[trigger] icr_of.ensures((v,), icr) ==> icr < min
}

/// `cap_breach_of` can only answer that a kFIAT total `k` within a total debt
/// `t` keeps to the cap.
pub open spec fn surely_within_cap<F: Fn(i128, i128, u8) -> Option<u64>>(
    cap_breach_of: F,
    k: int,
    t: int,
    cap: u8,
) -> bool {
    forall|o: Option<u64>| #[trigger] cap_breach_of.ensures((k as i128, t as i128, cap), o) ==> o is None
}

/// `cap_breach_of` can only answer that a kFIAT total `k` within a total debt
/// `t` breaks the cap.
pub open spec fn surely_beyond_cap<F: Fn(i128, i128, u8) -> Option<u64>>(
    cap_breach_of: F,
    k: int,
    t: int,
    cap: u8,
) -> bool {
    forall|o: Option<u64>| #[trigger] cap_breach_of.ensures((k as i128, t as i128, cap), o) ==> o is Some
}

/// `v` with its ENRK debt replaced.
pub open spec fn with_debt_enrk(v: Vault, debt: int) -> Vault {
    Vault { debt_enrk: debt as i128, ..v }
}

/// `v` with its kFIAT debt replaced.
pub open spec fn with_debt_kfiat(v: Vault, debt: int) -> Vault {
    Vault { debt_kfiat: debt as i128, ..v }
}

/// `v` with its collateral replaced.
pub open spec fn with_collateral(v: Vault, collateral: int) -> Vault {
    Vault { collateral_kas: collateral as i128, ..v }
}

/// `v` stamped with a new update time.
pub open spec fn stamped(v: Vault, t: u64) -> Vault {
    Vault { last_updated_seconds: t, ..v }
}

impl VaultManager {
    /// Ids are positions plus one; amounts are non-negative and their totals fit
    /// in an `i128`; the frozen parameters are valid.
    pub closed spec fn wf(&self) -> bool {
        &&& forall|i: int| 0 <= i < self.vaults@.len() ==> #[trigger] self.vaults@[i].vault_id == i + 1
        &&& self.next_vault_id == self.vaults@.len() + 1
        &&& amounts_nonnegative(self.vaults@)
        &&& sum_amount(self.vaults@, VaultAmount::DebtEnrk) <= i128::MAX
        &&& sum_amount(self.vaults@, VaultAmount::DebtKfiat) <= i128::MAX
        &&& sum_amount(self.vaults@, VaultAmount::Collateral) <= i128::MAX
        &&& self.collateral_ratios.is_valid()
        &&& self.fees.is_valid()
        &&& 0 < self.kfiat_cap_percent <= 50
    }

    /// The vaults, in order of id.
    pub closed spec fn vaults_spec(&self) -> Seq<Vault> {
        self.vaults@
    }

    pub closed spec fn ratios(&self) -> CollateralRatios {
        self.collateral_ratios
    }

    pub closed spec fn fees_spec(&self) -> FeeStructure {
        self.fees
    }

    pub closed spec fn cap(&self) -> u8 {
        self.kfiat_cap_percent
    }

    pub open spec fn found(&self, id: u64) -> bool {
        1 <= id <= self.vaults_spec().len()
    }

    pub open spec fn vault(&self, id: u64) -> Vault {
        self.vaults_spec()[id - 1]
    }

    pub open spec fn total_enrk(&self) -> int {
        sum_amount(self.vaults_spec(), VaultAmount::DebtEnrk)
    }

    pub open spec fn total_kfiat(&self) -> int {
        sum_amount(self.vaults_spec(), VaultAmount::DebtKfiat)
    }

    pub open spec fn total_collateral_spec(&self) -> int {
        sum_amount(self.vaults_spec(), VaultAmount::Collateral)
    }

    /// `new` is `old` with the vault `id` replaced by `v`.
    pub open spec fn replaced(old: VaultManager, new: VaultManager, id: u64, v: Vault) -> bool {
        &&& new.vaults_spec() == old.vaults_spec().update(id - 1, v)
        &&& new.ratios() == old.ratios()
        &&& new.fees_spec() == old.fees_spec()
        &&& new.cap() == old.cap()
    }

    /// Facts that hold of a well-formed manager.
    pub proof fn lemma_wf_facts(&self)
        requires
            self.wf(),
        ensures
            0 <= self.total_enrk() <= i128::MAX,
            0 <= self.total_kfiat() <= i128::MAX,
            0 <= self.total_collateral_spec() <= i128::MAX,
            forall|id: u64| #![trigger self.vault(id)]
                self.found(id) ==> self.vault(id).vault_id == id && 0 <= self.vault(id).debt_enrk
                    <= self.total_enrk() && 0 <= self.vault(id).debt_kfiat <= self.total_kfiat() && 0
                    <= self.vault(id).collateral_kas <= self.total_collateral_spec(),
    {
        let s = self.vaults@;
        lemma_sum_bounds(s, 0, VaultAmount::DebtEnrk);
        lemma_sum_bounds(s, 0, VaultAmount::DebtKfiat);
        lemma_sum_bounds(s, 0, VaultAmount::Collateral);
        assert forall|id: u64| #![trigger self.vault(id)]
            self.found(id) implies self.vault(id).vault_id == id && 0 <= self.vault(id).debt_enrk
                <= self.total_enrk() && 0 <= self.vault(id).debt_kfiat <= self.total_kfiat() && 0
                <= self.vault(id).collateral_kas <= self.total_collateral_spec() by {
            lemma_sum_bounds(s, id - 1, VaultAmount::DebtEnrk);
            lemma_sum_bounds(s, id - 1, VaultAmount::DebtKfiat);
            lemma_sum_bounds(s, id - 1, VaultAmount::Collateral);
        }
    }

    /// A manager with no vaults and the given frozen parameters. The ratios and
    /// fees must be valid (checked in that order) and the kFIAT cap in (0, 50].
    pub fn new(collateral_ratios: CollateralRatios, fees: FeeStructure, kfiat_cap_percent: u8) -> (r:
        IgraResult<VaultManager>)
        ensures
            !collateral_ratios.is_valid() ==> invalid_parameters(r, collateral_ratios.error_message()),
            collateral_ratios.is_valid() && !fees.is_valid() ==> invalid_parameters(
                r,
                fees.error_message(),
            ),
            collateral_ratios.is_valid() && fees.is_valid() && (kfiat_cap_percent == 0
                || kfiat_cap_percent > 50) ==> invalid_parameters(
                r,
                "kFIAT cap must be 0 < x <= 50%"@,
            ),
            collateral_ratios.is_valid() && fees.is_valid() && 0 < kfiat_cap_percent <= 50 ==> (r matches Ok(
                m,
            ) && m.wf() && m.vaults_spec().len() == 0 && m.ratios() == collateral_ratios
                && m.fees_spec() == fees && m.cap() == kfiat_cap_percent),
    {
        if let Err(e) = collateral_ratios.validate() {
            return Err(IgraError::InvalidParameters(e));
        }
        if let Err(e) = fees.validate() {
            return Err(IgraError::InvalidParameters(e));
        }
        if kfiat_cap_percent == 0 || kfiat_cap_percent > 50 {
            return Err(IgraError::InvalidParameters(String::from_str("kFIAT cap must be 0 < x <= 50%")));
        }
        Ok(
            VaultManager {
                vaults: Vec::new(),
                next_vault_id: 1,
                collateral_ratios,
                fees,
                kfiat_cap_percent,
            },
        )
    }

    fn overflow() -> (e: IgraError)
        ensures
            e matches IgraError::CalculationOverflow(m) && m@ == vault_overflow_message(),
    {
        IgraError::CalculationOverflow(String::from_str("Vault totals exceed the representable range"))
    }

    fn position(&self, vault_id: u64) -> (r: IgraResult<usize>)
        requires
            self.wf(),
        ensures
            r matches Ok(i) ==> self.found(vault_id) && i == vault_id - 1,
            r is Err ==> !self.found(vault_id) && r == Err::<usize, IgraError>(
                IgraError::VaultNotFound(vault_id),
            ),
    {
        if vault_id == 0 || vault_id > self.vaults.len() as u64 {
            return Err(IgraError::VaultNotFound(vault_id));
        }
        Ok((vault_id - 1) as usize)
    }

    /// Replaces the vault at position `i`, keeping the totals in range.
    fn store(&mut self, i: usize, v: Vault)
        requires
            old(self).wf(),
            i < old(self).vaults@.len(),
            v.vault_id == i + 1,
            v.debt_enrk >= 0,
            v.debt_kfiat >= 0,
            v.collateral_kas >= 0,
            old(self).total_enrk() - old(self).vaults@[i as int].debt_enrk + v.debt_enrk <= i128::MAX,
            old(self).total_kfiat() - old(self).vaults@[i as int].debt_kfiat + v.debt_kfiat <= i128::MAX,
            old(self).total_collateral_spec() - old(self).vaults@[i as int].collateral_kas
                + v.collateral_kas <= i128::MAX,
        ensures
            final(self).wf(),
            final(self).vaults_spec() == old(self).vaults_spec().update(i as int, v),
            final(self).ratios() == old(self).ratios(),
            final(self).fees_spec() == old(self).fees_spec(),
            final(self).cap() == old(self).cap(),
    {
        proof {
            lemma_sum_update(self.vaults@, i as int, v, VaultAmount::DebtEnrk);
            lemma_sum_update(self.vaults@, i as int, v, VaultAmount::DebtKfiat);
            lemma_sum_update(self.vaults@, i as int, v, VaultAmount::Collateral);
        }
        self.vaults.set(i, v);
        assert(amounts_nonnegative(self.vaults@));
    }

    /// Opens a vault for `owner` with `initial_collateral_kas` KAS and no debt.
    /// The owner must be non-empty and the collateral positive. Returns the new
    /// vault's id, the next in sequence; creation and update times are the clock's
    /// reading.
    pub fn create_vault(&mut self, owner: &str, initial_collateral_kas: i128) -> (r: IgraResult<u64>)
        requires
            old(self).wf(),
        ensures
            final(self).wf(),
            owner@.len() == 0 ==> invalid_address(r, "Owner address empty"@),
            owner@.len() > 0 && initial_collateral_kas <= 0 ==> r == Err::<u64, IgraError>(
                IgraError::InvalidCollateralAmount,
            ),
            owner@.len() > 0 && initial_collateral_kas > 0 && (old(self).total_collateral_spec()
                + initial_collateral_kas > i128::MAX || old(self).vaults_spec().len() + 1 >= u64::MAX)
                ==> calculation_overflow(r, vault_overflow_message()),
            owner@.len() > 0 && initial_collateral_kas > 0 && old(self).total_collateral_spec()
                + initial_collateral_kas <= i128::MAX && old(self).vaults_spec().len() + 1 < u64::MAX
                ==> r is Ok,
            r is Err ==> *final(self) == *old(self),
            r matches Ok(id) ==> {
                let v = final(self).vault(id);
                &&& owner@.len() > 0 && initial_collateral_kas > 0
                &&& id == old(self).vaults_spec().len() + 1
                &&& final(self).vaults_spec() == old(self).vaults_spec().push(v)
                &&& v.vault_id == id
                &&& v.owner@ == owner@
                &&& v.collateral_kas == initial_collateral_kas
                &&& v.debt_enrk == 0
                &&& v.debt_kfiat == 0
                &&& v.status == VaultStatus::Active
                &&& v.created_at_seconds == v.last_updated_seconds
                &&& final(self).ratios() == old(self).ratios()
                &&& final(self).fees_spec() == old(self).fees_spec()
                &&& final(self).cap() == old(self).cap()
            },
    {
        if owner.is_empty() {
            return Err(IgraError::InvalidAddress(String::from_str("Owner address empty")));
        }
        if initial_collateral_kas <= 0 {
            return Err(IgraError::InvalidCollateralAmount);
        }
        proof {
            self.lemma_wf_facts();
        }
        let total = self.total_collateral();
        if total.checked_add(initial_collateral_kas).is_none() || self.next_vault_id == u64::MAX {
            return Err(Self::overflow());
        }
        let vault_id = self.next_vault_id;
        self.next_vault_id = self.next_vault_id + 1;
        let now = unix_now_seconds();
        let vault = Vault {
            vault_id,
            owner: String::from_str(owner),
            collateral_kas: initial_collateral_kas,
            debt_enrk: 0,
            debt_kfiat: 0,
            status: VaultStatus::Active,
            created_at_seconds: now,
            last_updated_seconds: now,
        };
        proof {
            lemma_sum_push(self.vaults@, vault, VaultAmount::DebtEnrk);
            lemma_sum_push(self.vaults@, vault, VaultAmount::DebtKfiat);
            lemma_sum_push(self.vaults@, vault, VaultAmount::Collateral);
        }
        self.vaults.push(vault);
        assert(amounts_nonnegative(self.vaults@));
        Ok(vault_id)
    }

    /// The vault with the given id.
    pub fn get_vault(&self, vault_id: u64) -> (r: IgraResult<Vault>)
        requires
            self.wf(),
        ensures
            self.found(vault_id) ==> r == Ok::<Vault, IgraError>(self.vault(vault_id)),
            !self.found(vault_id) ==> r == Err::<Vault, IgraError>(IgraError::VaultNotFound(vault_id)),
    {
        let i = self.position(vault_id)?;
        Ok(self.vaults[i].clone())
    }

    /// Mints `amount_enrk` ENRK against a vault's collateral. The mint fee
    /// (`fee_of` applied to the amount and the mint fee in basis points) is added
    /// to the debt with the amount; the vault's ICR after the mint (`icr_of`, in
    /// whole percent) must reach the ICR minimum. Checked in order: positive
    /// amount, vault exists, vault active, totals in range, ICR. Returns the fee.
    /// A refusal changes nothing.
    pub fn mint_enrk(
        &mut self,
        vault_id: u64,
        amount_enrk: i128,
        fee_of: impl Fn(i128, u16) -> u64,
        icr_of: impl Fn(&Vault) -> u16,
    ) -> (r: IgraResult<i128>)
        requires
            old(self).wf(),
            forall|a: i128, b: u16| fee_of.requires((a, b)),
            forall|v: &Vault| icr_of.requires((v,)),
        ensures
            final(self).wf(),
            amount_enrk <= 0 ==> r == Err::<i128, IgraError>(IgraError::InvalidDebtAmount),
            amount_enrk > 0 && !old(self).found(vault_id) ==> r == Err::<i128, IgraError>(
                IgraError::VaultNotFound(vault_id),
            ),
            amount_enrk > 0 && old(self).found(vault_id) && old(self).vault(vault_id).status
                != VaultStatus::Active ==> (r matches Err(IgraError::InvalidVaultStatus { status })
                && status@ == old(self).vault(vault_id).status.name_spec()),
            r is Err ==> *final(self) == *old(self),
            amount_enrk > 0 && old(self).found(vault_id) && old(self).vault(vault_id).status
                == VaultStatus::Active && (forall|fee: u64|
                #[trigger] fee_of.ensures((amount_enrk, old(self).fees_spec().mint_fee_bps), fee)
                    ==> old(self).total_enrk() + amount_enrk + fee > i128::MAX) ==> calculation_overflow(
                r,
                vault_overflow_message(),
            ),
            amount_enrk > 0 && old(self).found(vault_id) && old(self).vault(vault_id).status
                == VaultStatus::Active && (forall|fee: u64|
                #[trigger] fee_of.ensures((amount_enrk, old(self).fees_spec().mint_fee_bps), fee)
                    ==> old(self).total_enrk() + amount_enrk + fee <= i128::MAX && surely_below(
                    icr_of,
                    &with_debt_enrk(
                        old(self).vault(vault_id),
                        old(self).vault(vault_id).debt_enrk + amount_enrk + fee,
                    ),
                    old(self).ratios().icr_minimum,
                )) ==> r matches Err(IgraError::InsufficientCollateral { .. }),
            amount_enrk > 0 && old(self).found(vault_id) && old(self).vault(vault_id).status
                == VaultStatus::Active && (forall|fee: u64|
                #[trigger] fee_of.ensures((amount_enrk, old(self).fees_spec().mint_fee_bps), fee)
                    ==> old(self).total_enrk() + amount_enrk + fee <= i128::MAX && surely_at_least(
                    icr_of,
                    &with_debt_enrk(
                        old(self).vault(vault_id),
                        old(self).vault(vault_id).debt_enrk + amount_enrk + fee,
                    ),
                    old(self).ratios().icr_minimum,
                )) ==> r is Ok,
            r matches Err(IgraError::InsufficientCollateral { required_icr, current_icr }) ==> {
                &&& required_icr == old(self).ratios().icr_minimum
                &&& current_icr < required_icr
                &&& exists|fee: u64|
                    fee_of.ensures((amount_enrk, old(self).fees_spec().mint_fee_bps), fee)
                        && icr_of.ensures(
                        (&with_debt_enrk(
                            old(self).vault(vault_id),
                            old(self).vault(vault_id).debt_enrk + amount_enrk + fee,
                        ),),
                        current_icr,
                    )
            },
            r matches Ok(fee) ==> {
                let v = old(self).vault(vault_id);
                let minted = with_debt_enrk(v, v.debt_enrk + amount_enrk + fee);
                &&& amount_enrk > 0 && old(self).found(vault_id) && v.status == VaultStatus::Active
                &&& 0 <= fee <= u64::MAX
                &&& fee_of.ensures((amount_enrk, old(self).fees_spec().mint_fee_bps), fee as u64)
                &&& exists|icr: u16|
                    icr_of.ensures((&minted,), icr) && icr >= old(self).ratios().icr_minimum
                &&& Self::replaced(
                    *old(self),
                    *final(self),
                    vault_id,
                    stamped(minted, final(self).vault(vault_id).last_updated_seconds),
                )
            },
    {
        if amount_enrk <= 0 {
            return Err(IgraError::InvalidDebtAmount);
        }
        let i = self.position(vault_id)?;
        if self.vaults[i].status != VaultStatus::Active {
            return Err(IgraError::InvalidVaultStatus { status: self.vaults[i].status.name() });
        }
        proof {
            self.lemma_wf_facts();
            assert(self.vault(vault_id) == self.vaults@[i as int]);
        }
        let fee = fee_of(amount_enrk, self.fees.mint_fee_bps);
        let added = match amount_enrk.checked_add(fee as i128) {
            Some(x) => x,
            None => {
                return Err(Self::overflow());
            },
        };
        let total = self.total_enrk_debt();
        if total.checked_add(added).is_none() {
            return Err(Self::overflow());
        }
        let mut vault = self.vaults[i].clone();
        vault.debt_enrk = vault.debt_enrk + added;
        let icr = icr_of(&vault);
        if icr < self.collateral_ratios.icr_minimum {
            return Err(
                IgraError::InsufficientCollateral {
                    required_icr: self.collateral_ratios.icr_minimum,
                    current_icr: icr,
                },
            );
        }
        vault.last_updated_seconds = unix_now_seconds();
        self.store(i, vault);
        Ok(fee as i128)
    }

    /// Mints `amount_kfiat` kFIAT against a vault's collateral. As `mint_enrk`,
    /// and before the ICR check the kFIAT cap across all vaults: with the new
    /// kFIAT total and total debt, `cap_breach_of` (given the cap) answers
    /// `Some(ratio)` when kFIAT would exceed the cap, which is then refused with
    /// that ratio. Returns the fee. A refusal changes nothing.
    pub fn mint_kfiat(
        &mut self,
        vault_id: u64,
        amount_kfiat: i128,
        fee_of: impl Fn(i128, u16) -> u64,
        cap_breach_of: impl Fn(i128, i128, u8) -> Option<u64>,
        icr_of: impl Fn(&Vault) -> u16,
    ) -> (r: IgraResult<i128>)
        requires
            old(self).wf(),
            forall|a: i128, b: u16| fee_of.requires((a, b)),
            forall|k: i128, t: i128, c: u8| cap_breach_of.requires((k, t, c)),
            forall|v: &Vault| icr_of.requires((v,)),
        ensures
            final(self).wf(),
            amount_kfiat <= 0 ==> r == Err::<i128, IgraError>(IgraError::InvalidDebtAmount),
            amount_kfiat > 0 && !old(self).found(vault_id) ==> r == Err::<i128, IgraError>(
                IgraError::VaultNotFound(vault_id),
            ),
            amount_kfiat > 0 && old(self).found(vault_id) && old(self).vault(vault_id).status
                != VaultStatus::Active ==> (r matches Err(IgraError::InvalidVaultStatus { status })
                && status@ == old(self).vault(vault_id).status.name_spec()),
            r is Err ==> *final(self) == *old(self),
            amount_kfiat > 0 && old(self).found(vault_id) && old(self).vault(vault_id).status
                == VaultStatus::Active && (forall|fee: u64|
                #[trigger] fee_of.ensures((amount_kfiat, old(self).fees_spec().mint_fee_bps), fee)
                    ==> old(self).total_enrk() + old(self).total_kfiat() + amount_kfiat + fee > i128::MAX) ==> calculation_overflow(
                r,
                vault_overflow_message(),
            ),
            amount_kfiat > 0 && old(self).found(vault_id) && old(self).vault(vault_id).status
                == VaultStatus::Active && (forall|fee: u64|
                #[trigger] fee_of.ensures((amount_kfiat, old(self).fees_spec().mint_fee_bps), fee)
                    ==> old(self).total_enrk() + old(self).total_kfiat() + amount_kfiat + fee <= i128::MAX && surely_beyond_cap(
                    cap_breach_of,
                    old(self).total_kfiat() + amount_kfiat + fee,
                    old(self).total_enrk() + old(self).total_kfiat() + amount_kfiat + fee,
                    old(self).cap(),
                )) ==> r matches Err(IgraError::KFIATCapExceeded { .. }),
            amount_kfiat > 0 && old(self).found(vault_id) && old(self).vault(vault_id).status
                == VaultStatus::Active && (forall|fee: u64|
                #[trigger] fee_of.ensures((amount_kfiat, old(self).fees_spec().mint_fee_bps), fee)
                    ==> old(self).total_enrk() + old(self).total_kfiat() + amount_kfiat + fee <= i128::MAX && surely_within_cap(
                    cap_breach_of,
                    old(self).total_kfiat() + amount_kfiat + fee,
                    old(self).total_enrk() + old(self).total_kfiat() + amount_kfiat + fee,
                    old(self).cap(),
                ) && surely_below(
                    icr_of,
                    &with_debt_kfiat(
                        old(self).vault(vault_id),
                        old(self).vault(vault_id).debt_kfiat + amount_kfiat + fee,
                    ),
                    old(self).ratios().icr_minimum,
                )) ==> r matches Err(IgraError::InsufficientCollateral { .. }),
            amount_kfiat > 0 && old(self).found(vault_id) && old(self).vault(vault_id).status
                == VaultStatus::Active && (forall|fee: u64|
                #[trigger] fee_of.ensures((amount_kfiat, old(self).fees_spec().mint_fee_bps), fee)
                    ==> old(self).total_enrk() + old(self).total_kfiat() + amount_kfiat + fee <= i128::MAX && surely_within_cap(
                    cap_breach_of,
                    old(self).total_kfiat() + amount_kfiat + fee,
                    old(self).total_enrk() + old(self).total_kfiat() + amount_kfiat + fee,
                    old(self).cap(),
                ) && surely_at_least(
                    icr_of,
                    &with_debt_kfiat(
                        old(self).vault(vault_id),
                        old(self).vault(vault_id).debt_kfiat + amount_kfiat + fee,
                    ),
                    old(self).ratios().icr_minimum,
                )) ==> r is Ok,
            r matches Err(IgraError::KFIATCapExceeded { current_kfiat, max_kfiat }) ==> {
                &&& max_kfiat == old(self).cap()
                &&& exists|fee: u64|
                    fee_of.ensures((amount_kfiat, old(self).fees_spec().mint_fee_bps), fee)
                        && cap_breach_of.ensures(
                        (
                            (old(self).total_kfiat() + amount_kfiat + fee) as i128,
                            (old(self).total_enrk() + old(self).total_kfiat() + amount_kfiat
                                + fee) as i128,
                            old(self).cap(),
                        ),
                        Some(current_kfiat),
                    )
            },
            r matches Err(IgraError::InsufficientCollateral { required_icr, current_icr }) ==> {
                &&& required_icr == old(self).ratios().icr_minimum
                &&& current_icr < required_icr
                &&& exists|fee: u64|
                    fee_of.ensures((amount_kfiat, old(self).fees_spec().mint_fee_bps), fee)
                        && icr_of.ensures(
                        (&with_debt_kfiat(
                            old(self).vault(vault_id),
                            old(self).vault(vault_id).debt_kfiat + amount_kfiat + fee,
                        ),),
                        current_icr,
                    )
            },
            r matches Ok(fee) ==> {
                let v = old(self).vault(vault_id);
                let minted = with_debt_kfiat(v, v.debt_kfiat + amount_kfiat + fee);
                &&& amount_kfiat > 0 && old(self).found(vault_id) && v.status == VaultStatus::Active
                &&& 0 <= fee <= u64::MAX
                &&& fee_of.ensures((amount_kfiat, old(self).fees_spec().mint_fee_bps), fee as u64)
                &&& cap_breach_of.ensures(
                    (
                        (old(self).total_kfiat() + amount_kfiat + fee) as i128,
                        (old(self).total_enrk() + old(self).total_kfiat() + amount_kfiat + fee) as i128,
                        old(self).cap(),
                    ),
                    None::<u64>,
                )
                &&& exists|icr: u16|
                    icr_of.ensures((&minted,), icr) && icr >= old(self).ratios().icr_minimum
                &&& Self::replaced(
                    *old(self),
                    *final(self),
                    vault_id,
                    stamped(minted, final(self).vault(vault_id).last_updated_seconds),
                )
            },
    {
        if amount_kfiat <= 0 {
            return Err(IgraError::InvalidDebtAmount);
        }
        let i = self.position(vault_id)?;
        if self.vaults[i].status != VaultStatus::Active {
            return Err(IgraError::InvalidVaultStatus { status: self.vaults[i].status.name() });
        }
        proof {
            self.lemma_wf_facts();
            assert(self.vault(vault_id) == self.vaults@[i as int]);
        }
        let fee = fee_of(amount_kfiat, self.fees.mint_fee_bps);
        let added = match amount_kfiat.checked_add(fee as i128) {
            Some(x) => x,
            None => {
                return Err(Self::overflow());
            },
        };
        let total_enrk = self.total_enrk_debt();
        let total_kfiat = self.total_kfiat_debt();
        let new_total_kfiat = match total_kfiat.checked_add(added) {
            Some(x) => x,
            None => {
                return Err(Self::overflow());
            },
        };
        let new_total_debt = match total_enrk.checked_add(new_total_kfiat) {
            Some(x) => x,
            None => {
                return Err(Self::overflow());
            },
        };
        if new_total_debt > 0 {
            if let Some(ratio) = cap_breach_of(new_total_kfiat, new_total_debt, self.kfiat_cap_percent) {
                return Err(
                    IgraError::KFIATCapExceeded {
                        current_kfiat: ratio,
                        max_kfiat: self.kfiat_cap_percent as u64,
                    },
                );
            }
        }
        let mut vault = self.vaults[i].clone();
        vault.debt_kfiat = vault.debt_kfiat + added;
        let icr = icr_of(&vault);
        if icr < self.collateral_ratios.icr_minimum {
            return Err(
                IgraError::InsufficientCollateral {
                    required_icr: self.collateral_ratios.icr_minimum,
                    current_icr: icr,
                },
            );
        }
        vault.last_updated_seconds = unix_now_seconds();
        self.store(i, vault);
        Ok(fee as i128)
    }

    /// Repays `amount_to_burn` of a vault's ENRK debt. The amount must be
    /// positive and covered by the ENRK debt; if ENRK debt remains, the ICR after
    /// the burn (`icr_of`) must still reach the ICR minimum. A refusal changes
    /// nothing.
    pub fn burn_enrk(&mut self, vault_id: u64, amount_to_burn: i128, icr_of: impl Fn(&Vault) -> u16) -> (r:
        IgraResult<()>)
        requires
            old(self).wf(),
            forall|v: &Vault| icr_of.requires((v,)),
        ensures
            final(self).wf(),
            amount_to_burn <= 0 ==> r == Err::<(), IgraError>(IgraError::InvalidDebtAmount),
            amount_to_burn > 0 && !old(self).found(vault_id) ==> r == Err::<(), IgraError>(
                IgraError::VaultNotFound(vault_id),
            ),
            amount_to_burn > 0 && old(self).found(vault_id) && old(self).vault(vault_id).debt_enrk
                < amount_to_burn ==> r == Err::<(), IgraError>(IgraError::InsufficientENRK),
            r is Err ==> *final(self) == *old(self),
            amount_to_burn > 0 && old(self).found(vault_id) && old(self).vault(vault_id).debt_enrk
                > amount_to_burn && surely_below(
                icr_of,
                &with_debt_enrk(
                    old(self).vault(vault_id),
                    old(self).vault(vault_id).debt_enrk - amount_to_burn,
                ),
                old(self).ratios().icr_minimum,
            ) ==> r == Err::<(), IgraError>(IgraError::InsufficientRemainingCollateral),
            amount_to_burn > 0 && old(self).found(vault_id) && old(self).vault(vault_id).debt_enrk
                >= amount_to_burn && (old(self).vault(vault_id).debt_enrk == amount_to_burn
                || surely_at_least(
                icr_of,
                &with_debt_enrk(
                    old(self).vault(vault_id),
                    old(self).vault(vault_id).debt_enrk - amount_to_burn,
                ),
                old(self).ratios().icr_minimum,
            )) ==> r is Ok,
            r == Err::<(), IgraError>(IgraError::InsufficientRemainingCollateral) ==> {
                let v = old(self).vault(vault_id);
                let burned = with_debt_enrk(v, v.debt_enrk - amount_to_burn);
                &&& v.debt_enrk > amount_to_burn
                &&& exists|icr: u16|
                    icr_of.ensures((&burned,), icr) && icr < old(self).ratios().icr_minimum
            },
            r is Ok ==> {
                let v = old(self).vault(vault_id);
                let burned = with_debt_enrk(v, v.debt_enrk - amount_to_burn);
                &&& amount_to_burn > 0 && old(self).found(vault_id) && v.debt_enrk >= amount_to_burn
                &&& v.debt_enrk > amount_to_burn ==> exists|icr: u16|
                    icr_of.ensures((&burned,), icr) && icr >= old(self).ratios().icr_minimum
                &&& Self::replaced(
                    *old(self),
                    *final(self),
                    vault_id,
                    stamped(burned, final(self).vault(vault_id).last_updated_seconds),
                )
            },
    {
        if amount_to_burn <= 0 {
            return Err(IgraError::InvalidDebtAmount);
        }
        let i = self.position(vault_id)?;
        proof {
            self.lemma_wf_facts();
            assert(self.vault(vault_id) == self.vaults@[i as int]);
        }
        if self.vaults[i].debt_enrk < amount_to_burn {
            return Err(IgraError::InsufficientENRK);
        }
        let mut vault = self.vaults[i].clone();
        vault.debt_enrk = vault.debt_enrk - amount_to_burn;
        if vault.debt_enrk > 0 {
            let icr = icr_of(&vault);
            if icr < self.collateral_ratios.icr_minimum {
                return Err(IgraError::InsufficientRemainingCollateral);
            }
        }
        vault.last_updated_seconds = unix_now_seconds();
        self.store(i, vault);
        Ok(())
    }

    /// Repays `amount_to_burn` of a vault's kFIAT debt. The amount must be
    /// positive and covered by the kFIAT debt; if any debt remains, the ICR after
    /// the burn (`icr_of`) must still reach the ICR minimum. A refusal changes
    /// nothing.
    pub fn burn_kfiat(&mut self, vault_id: u64, amount_to_burn: i128, icr_of: impl Fn(&Vault) -> u16) -> (r:
        IgraResult<()>)
        requires
            old(self).wf(),
            forall|v: &Vault| icr_of.requires((v,)),
        ensures
            final(self).wf(),
            amount_to_burn <= 0 ==> r == Err::<(), IgraError>(IgraError::InvalidDebtAmount),
            amount_to_burn > 0 && !old(self).found(vault_id) ==> r == Err::<(), IgraError>(
                IgraError::VaultNotFound(vault_id),
            ),
            amount_to_burn > 0 && old(self).found(vault_id) && old(self).vault(vault_id).debt_kfiat
                < amount_to_burn ==> r == Err::<(), IgraError>(
                IgraError::InsufficientBalance {
                    required: u64_or(amount_to_burn as int, u64::MAX),
                    available: u64_or(old(self).vault(vault_id).debt_kfiat as int, 0),
                },
            ),
            r is Err ==> *final(self) == *old(self),
            amount_to_burn > 0 && old(self).found(vault_id) && old(self).vault(vault_id).debt_kfiat
                >= amount_to_burn && old(self).vault(vault_id).total_debt() > amount_to_burn
                && surely_below(
                icr_of,
                &with_debt_kfiat(
                    old(self).vault(vault_id),
                    old(self).vault(vault_id).debt_kfiat - amount_to_burn,
                ),
                old(self).ratios().icr_minimum,
            ) ==> r == Err::<(), IgraError>(IgraError::InsufficientRemainingCollateral),
            amount_to_burn > 0 && old(self).found(vault_id) && old(self).vault(vault_id).debt_kfiat
                >= amount_to_burn && (old(self).vault(vault_id).total_debt() == amount_to_burn
                || surely_at_least(
                icr_of,
                &with_debt_kfiat(
                    old(self).vault(vault_id),
                    old(self).vault(vault_id).debt_kfiat - amount_to_burn,
                ),
                old(self).ratios().icr_minimum,
            )) ==> r is Ok,
            r == Err::<(), IgraError>(IgraError::InsufficientRemainingCollateral) ==> {
                let v = old(self).vault(vault_id);
                let burned = with_debt_kfiat(v, v.debt_kfiat - amount_to_burn);
                &&& burned.debt_enrk + burned.debt_kfiat > 0
                &&& exists|icr: u16|
                    icr_of.ensures((&burned,), icr) && icr < old(self).ratios().icr_minimum
            },
            r is Ok ==> {
                let v = old(self).vault(vault_id);
                let burned = with_debt_kfiat(v, v.debt_kfiat - amount_to_burn);
                &&& amount_to_burn > 0 && old(self).found(vault_id) && v.debt_kfiat >= amount_to_burn
                &&& burned.debt_enrk + burned.debt_kfiat > 0 ==> exists|icr: u16|
                    icr_of.ensures((&burned,), icr) && icr >= old(self).ratios().icr_minimum
                &&& Self::replaced(
                    *old(self),
                    *final(self),
                    vault_id,
                    stamped(burned, final(self).vault(vault_id).last_updated_seconds),
                )
            },
    {
        if amount_to_burn <= 0 {
            return Err(IgraError::InvalidDebtAmount);
        }
        let i = self.position(vault_id)?;
        proof {
            self.lemma_wf_facts();
            assert(self.vault(vault_id) == self.vaults@[i as int]);
        }
        if self.vaults[i].debt_kfiat < amount_to_burn {
            return Err(
                IgraError::InsufficientBalance {
                    required: to_u64_or(amount_to_burn, u64::MAX),
                    available: to_u64_or(self.vaults[i].debt_kfiat, 0),
                },
            );
        }
        let mut vault = self.vaults[i].clone();
        vault.debt_kfiat = vault.debt_kfiat - amount_to_burn;
        if vault.debt_enrk > 0 || vault.debt_kfiat > 0 {
            let icr = icr_of(&vault);
            if icr < self.collateral_ratios.icr_minimum {
                return Err(IgraError::InsufficientRemainingCollateral);
            }
        }
        vault.last_updated_seconds = unix_now_seconds();
        self.store(i, vault);
        Ok(())
    }

    /// Adds `additional_kas` collateral to an active vault. The amount must be
    /// positive. A refusal changes nothing.
    pub fn deposit_collateral(&mut self, vault_id: u64, additional_kas: i128) -> (r: IgraResult<()>)
        requires
            old(self).wf(),
        ensures
            final(self).wf(),
            additional_kas <= 0 ==> r == Err::<(), IgraError>(IgraError::InvalidCollateralAmount),
            additional_kas > 0 && !old(self).found(vault_id) ==> r == Err::<(), IgraError>(
                IgraError::VaultNotFound(vault_id),
            ),
            additional_kas > 0 && old(self).found(vault_id) && old(self).vault(vault_id).status
                != VaultStatus::Active ==> (r matches Err(IgraError::InvalidVaultStatus { status })
                && status@ == old(self).vault(vault_id).status.name_spec()),
            additional_kas > 0 && old(self).found(vault_id) && old(self).vault(vault_id).status
                == VaultStatus::Active && old(self).total_collateral_spec() + additional_kas
                > i128::MAX ==> calculation_overflow(r, vault_overflow_message()),
            r is Err ==> *final(self) == *old(self),
            additional_kas > 0 && old(self).found(vault_id) && old(self).vault(vault_id).status
                == VaultStatus::Active && old(self).total_collateral_spec() + additional_kas
                <= i128::MAX ==> {
                let v = old(self).vault(vault_id);
                &&& r is Ok
                &&& Self::replaced(
                    *old(self),
                    *final(self),
                    vault_id,
                    stamped(
                        with_collateral(v, v.collateral_kas + additional_kas),
                        final(self).vault(vault_id).last_updated_seconds,
                    ),
                )
            },
    {
        if additional_kas <= 0 {
            return Err(IgraError::InvalidCollateralAmount);
        }
        let i = self.position(vault_id)?;
        if self.vaults[i].status != VaultStatus::Active {
            return Err(IgraError::InvalidVaultStatus { status: self.vaults[i].status.name() });
        }
        proof {
            self.lemma_wf_facts();
            assert(self.vault(vault_id) == self.vaults@[i as int]);
        }
        let total = self.total_collateral();
        if total.checked_add(additional_kas).is_none() {
            return Err(Self::overflow());
        }
        let mut vault = self.vaults[i].clone();
        vault.collateral_kas = vault.collateral_kas + additional_kas;
        vault.last_updated_seconds = unix_now_seconds();
        self.store(i, vault);
        Ok(())
    }

    /// Withdraws `amount_kas` collateral from an active vault. The amount must be
    /// positive and covered by the collateral; if the vault has debt, the ICR
    /// after the withdrawal (`icr_of`) must still reach the MCR. A refusal changes
    /// nothing.
    pub fn withdraw_collateral(&mut self, vault_id: u64, amount_kas: i128, icr_of: impl Fn(&Vault) -> u16) -> (r:
        IgraResult<()>)
        requires
            old(self).wf(),
            forall|v: &Vault| icr_of.requires((v,)),
        ensures
            final(self).wf(),
            amount_kas <= 0 ==> r == Err::<(), IgraError>(IgraError::InvalidCollateralAmount),
            amount_kas > 0 && !old(self).found(vault_id) ==> r == Err::<(), IgraError>(
                IgraError::VaultNotFound(vault_id),
            ),
            amount_kas > 0 && old(self).found(vault_id) && old(self).vault(vault_id).status
                != VaultStatus::Active ==> (r matches Err(IgraError::InvalidVaultStatus { status })
                && status@ == old(self).vault(vault_id).status.name_spec()),
            amount_kas > 0 && old(self).found(vault_id) && old(self).vault(vault_id).status
                == VaultStatus::Active && old(self).vault(vault_id).collateral_kas < amount_kas ==> r
                == Err::<(), IgraError>(
                IgraError::InsufficientBalance {
                    required: u64_or(amount_kas as int, u64::MAX),
                    available: u64_or(old(self).vault(vault_id).collateral_kas as int, 0),
                },
            ),
            r is Err ==> *final(self) == *old(self),
            amount_kas > 0 && old(self).found(vault_id) && old(self).vault(vault_id).status
                == VaultStatus::Active && old(self).vault(vault_id).collateral_kas >= amount_kas
                && old(self).vault(vault_id).total_debt() > 0 && surely_below(
                icr_of,
                &with_collateral(
                    old(self).vault(vault_id),
                    old(self).vault(vault_id).collateral_kas - amount_kas,
                ),
                old(self).ratios().mcr_trigger,
            ) ==> r == Err::<(), IgraError>(IgraError::InsufficientRemainingCollateral),
            amount_kas > 0 && old(self).found(vault_id) && old(self).vault(vault_id).status
                == VaultStatus::Active && old(self).vault(vault_id).collateral_kas >= amount_kas
                && (old(self).vault(vault_id).total_debt() == 0 || surely_at_least(
                icr_of,
                &with_collateral(
                    old(self).vault(vault_id),
                    old(self).vault(vault_id).collateral_kas - amount_kas,
                ),
                old(self).ratios().mcr_trigger,
            )) ==> r is Ok,
            r == Err::<(), IgraError>(IgraError::InsufficientRemainingCollateral) ==> {
                let v = old(self).vault(vault_id);
                let after = with_collateral(v, v.collateral_kas - amount_kas);
                &&& v.debt_enrk + v.debt_kfiat > 0
                &&& exists|icr: u16|
                    icr_of.ensures((&after,), icr) && icr < old(self).ratios().mcr_trigger
            },
            r is Ok ==> {
                let v = old(self).vault(vault_id);
                let after = with_collateral(v, v.collateral_kas - amount_kas);
                &&& amount_kas > 0 && old(self).found(vault_id) && v.status == VaultStatus::Active
                &&& v.collateral_kas >= amount_kas
                &&& v.debt_enrk + v.debt_kfiat > 0 ==> exists|icr: u16|
                    icr_of.ensures((&after,), icr) && icr >= old(self).ratios().mcr_trigger
                &&& Self::replaced(
                    *old(self),
                    *final(self),
                    vault_id,
                    stamped(after, final(self).vault(vault_id).last_updated_seconds),
                )
            },
    {
        if amount_kas <= 0 {
            return Err(IgraError::InvalidCollateralAmount);
        }
        let i = self.position(vault_id)?;
        if self.vaults[i].status != VaultStatus::Active {
            return Err(IgraError::InvalidVaultStatus { status: self.vaults[i].status.name() });
        }
        proof {
            self.lemma_wf_facts();
            assert(self.vault(vault_id) == self.vaults@[i as int]);
        }
        if self.vaults[i].collateral_kas < amount_kas {
            return Err(
                IgraError::InsufficientBalance {
                    required: to_u64_or(amount_kas, u64::MAX),
                    available: to_u64_or(self.vaults[i].collateral_kas, 0),
                },
            );
        }
        let mut vault = self.vaults[i].clone();
        vault.collateral_kas = vault.collateral_kas - amount_kas;
        if vault.debt_enrk > 0 || vault.debt_kfiat > 0 {
            let icr = icr_of(&vault);
            if icr < self.collateral_ratios.mcr_trigger {
                return Err(IgraError::InsufficientRemainingCollateral);
            }
        }
        vault.last_updated_seconds = unix_now_seconds();
        self.store(i, vault);
        Ok(())
    }

    /// Closes a vault that owes nothing. A vault with debt is refused (with the
    /// error the protocol names `VaultZeroDebt`). A refusal changes nothing.
    pub fn close_vault(&mut self, vault_id: u64) -> (r: IgraResult<()>)
        requires
            old(self).wf(),
        ensures
            final(self).wf(),
            !old(self).found(vault_id) ==> r == Err::<(), IgraError>(IgraError::VaultNotFound(vault_id)),
            old(self).found(vault_id) && old(self).vault(vault_id).total_debt() > 0 ==> r == Err::<
                (),
                IgraError,
            >(IgraError::VaultZeroDebt),
            r is Err ==> *final(self) == *old(self),
            old(self).found(vault_id) && old(self).vault(vault_id).total_debt() <= 0 ==> {
                &&& r is Ok
                &&& Self::replaced(
                    *old(self),
                    *final(self),
                    vault_id,
                    stamped(
                        Vault { status: VaultStatus::Closed, ..old(self).vault(vault_id) },
                        final(self).vault(vault_id).last_updated_seconds,
                    ),
                )
            },
    {
        let i = self.position(vault_id)?;
        proof {
            self.lemma_wf_facts();
            assert(self.vault(vault_id) == self.vaults@[i as int]);
        }
        if self.vaults[i].debt_enrk > 0 || self.vaults[i].debt_kfiat > 0 {
            return Err(IgraError::VaultZeroDebt);
        }
        let mut vault = self.vaults[i].clone();
        vault.status = VaultStatus::Closed;
        vault.last_updated_seconds = unix_now_seconds();
        self.store(i, vault);
        Ok(())
    }

    /// The active vaults that `is_under` (given a vault and the MCR) reports as
    /// under-collateralised, in id order: every vault returned is active and was
    /// reported under, and every active vault that `is_under` can only report as
    /// under is returned.
    pub fn get_liquidation_candidates(&self, is_under: impl Fn(&Vault, u16) -> bool) -> (r: Vec<Vault>)
        requires
            self.wf(),
            forall|v: &Vault, m: u16| is_under.requires((v, m)),
        ensures
            forall|j: int| #![trigger r@[j]] 0 <= j < r@.len() ==> {
                &&& r@[j].status == VaultStatus::Active
                &&& self.found(r@[j].vault_id)
                &&& r@[j] == self.vault(r@[j].vault_id)
                &&& is_under.ensures((&r@[j], self.ratios().mcr_trigger), true)
            },
            forall|j: int, k: int| 0 <= j < k < r@.len() ==> r@[j].vault_id < r@[k].vault_id,
            forall|id: u64|
                self.found(id) && self.vault(id).status == VaultStatus::Active && surely_under(
                    is_under,
                    &self.vault(id),
                    self.ratios().mcr_trigger,
                ) ==> #[trigger] ids_of(r@).contains(id),
    {
        let n = self.vaults.len();
        let mcr = self.collateral_ratios.mcr_trigger;
        let mut out: Vec<Vault> = Vec::new();
        let mut i: usize = 0;
        while i < n
            invariant
                0 <= i <= n,
                n == self.vaults@.len(),
                self.wf(),
                mcr == self.ratios().mcr_trigger,
                forall|v: &Vault, m: u16| is_under.requires((v, m)),
                forall|j: int| #![trigger out@[j]] 0 <= j < out@.len() ==> {
                    &&& out@[j].status == VaultStatus::Active
                    &&& 1 <= out@[j].vault_id <= i
                    &&& out@[j] == self.vault(out@[j].vault_id)
                    &&& is_under.ensures((&out@[j], mcr), true)
                },
                forall|j: int, k: int| 0 <= j < k < out@.len() ==> out@[j].vault_id < out@[k].vault_id,
                forall|id: u64|
                    1 <= id <= i && self.vault(id).status == VaultStatus::Active && surely_under(
                        is_under,
                        &self.vault(id),
                        mcr,
                    ) ==> #[trigger] ids_of(out@).contains(id),
            decreases n - i,
        {
            let v = &self.vaults[i];
            let ghost id = (i + 1) as u64;
            proof {
                assert(self.vault(id) == self.vaults@[i as int]);
                assert(self.vaults@[i as int].vault_id == id);
            }
            let ghost before = out@;
            if v.status == VaultStatus::Active {
                let under = is_under(v, mcr);
                if under {
                    out.push(v.clone());
                    proof {
                        assert(ids_of(out@)[before.len() as int] == id);
                    }
                }
            }
            proof {
                assert forall|x: u64|
                    1 <= x <= i + 1 && self.vault(x).status == VaultStatus::Active && surely_under(
                        is_under,
                        &self.vault(x),
                        mcr,
                    ) implies #[trigger] ids_of(out@).contains(x) by {
                    if x <= i {
                        assert(ids_of(before).contains(x));
                        let k = choose|k: int|
                            0 <= k < before.len() && ids_of(before)[k] == x;
                        assert(out@[k] == before[k]);
                        assert(ids_of(out@)[k] == x);
                    }
                }
            }
            i += 1;
        }
        out
    }

    /// Number of vaults ever created.
    pub fn vault_count(&self) -> (r: usize)
        ensures
            r == self.vaults_spec().len(),
    {
        self.vaults.len()
    }

    fn total(&self, which: VaultAmount) -> (r: i128)
        requires
            self.wf(),
        ensures
            r == sum_amount(self.vaults_spec(), which),
    {
        let n = self.vaults.len();
        let mut acc: i128 = 0;
        let mut i: usize = 0;
        while i < n
            invariant
                0 <= i <= n,
                n == self.vaults@.len(),
                self.wf(),
                acc == sum_amount(self.vaults@.take(i as int), which),
            decreases n - i,
        {
            proof {
                lemma_sum_bounds(self.vaults@, i as int, which);
                lemma_sum_bounds(self.vaults@, i as int + 1, which);
            }
            let v = &self.vaults[i];
            let x = match which {
                VaultAmount::DebtEnrk => v.debt_enrk,
                VaultAmount::DebtKfiat => v.debt_kfiat,
                VaultAmount::Collateral => v.collateral_kas,
            };
            acc = acc + x;
            i += 1;
        }
        assert(self.vaults@.take(n as int) =~= self.vaults@);
        acc
    }

    /// Total ENRK debt across all vaults.
    pub fn total_enrk_debt(&self) -> (r: i128)
        requires
            self.wf(),
        ensures
            r == self.total_enrk(),
    {
        self.total(VaultAmount::DebtEnrk)
    }

    /// Total kFIAT debt across all vaults.
    pub fn total_kfiat_debt(&self) -> (r: i128)
        requires
            self.wf(),
        ensures
            r == self.total_kfiat(),
    {
        self.total(VaultAmount::DebtKfiat)
    }

    /// Total collateral across all vaults.
    pub fn total_collateral(&self) -> (r: i128)
        requires
            self.wf(),
        ensures
            r == self.total_collateral_spec(),
    {
        self.total(VaultAmount::Collateral)
    }
}

} // verus!
