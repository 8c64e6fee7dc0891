use igra::{CollateralRatios, FeeStructure, IgraError, Vault, VaultManager, VaultStatus};

/// The fee on `amount` at `bps` basis points, in binary64, truncated.
fn fee(amount: i128, bps: u16) -> u64 {
    let factor = bps as f64 / 10000.0;
    (amount as f64 * factor) as u64
}

/// Collateral value over debt value, in whole percent (saturating), at the given prices.
fn icr_at(kas_price: f64, enrk_price: f64, kfiat_price: f64) -> impl Fn(&Vault) -> u16 {
    move |v: &Vault| {
        let collateral = v.collateral_kas as f64 * kas_price;
        let debt = v.debt_enrk as f64 * enrk_price + v.debt_kfiat as f64 * kfiat_price;
        if debt == 0.0 {
            return u16::MAX;
        }
        ((collateral / debt) * 100.0) as u16
    }
}

/// `Some(ratio)` when kFIAT's share of the total debt exceeds the cap.
fn cap_breach(kfiat: i128, total: i128, cap: u8) -> Option<u64> {
    let ratio = (kfiat as f64 / total as f64) * 100.0;
    if ratio > cap as f64 {
        Some(ratio as u64)
    } else {
        None
    }
}

/// Under-collateralised: ICR below the MCR, at the given prices.
fn under_at(kas_price: f64) -> impl Fn(&Vault, u16) -> bool {
    move |v: &Vault, mcr: u16| {
        let collateral = v.collateral_kas as f64 * kas_price;
        let debt = v.debt_enrk as f64 + v.debt_kfiat as f64;
        let icr = if debt == 0.0 { f64::INFINITY } else { (collateral / debt) * 100.0 };
        icr < mcr as f64
    }
}

fn create_test_manager() -> VaultManager {
    VaultManager::new(CollateralRatios::default(), FeeStructure::default(), 30).unwrap()
}

#[test]
fn test_vault_creation() {
    let mut manager = create_test_manager();
    let vault_id = manager.create_vault("addr_test", 100).unwrap();
    assert_eq!(vault_id, 1);
    let vault = manager.get_vault(1).unwrap();
    assert_eq!(vault.collateral_kas, 100);
    assert_eq!(vault.debt_enrk, 0);
}

#[test]
fn test_vault_creation_invalid_owner() {
    let mut manager = create_test_manager();
    let result = manager.create_vault("", 100);
    assert!(result.is_err());
}

#[test]
fn test_mint_enrk() {
    let mut manager = create_test_manager();
    manager.create_vault("addr_test", 1000).unwrap();
    let _fee = manager.mint_enrk(1, 100, fee, icr_at(5.0, 1.0, 1.0)).unwrap();
    let vault = manager.get_vault(1).unwrap();
    assert!(vault.debt_enrk > 100);
}

#[test]
fn test_collateral_deposit() {
    let mut manager = create_test_manager();
    manager.create_vault("addr_test", 100).unwrap();
    manager.deposit_collateral(1, 50).unwrap();
    let vault = manager.get_vault(1).unwrap();
    assert_eq!(vault.collateral_kas, 150);
}

#[test]
fn test_total_debt_calculation() {
    let mut manager = create_test_manager();
    manager.create_vault("owner1", 1000).unwrap();
    manager.create_vault("owner2", 1000).unwrap();
    manager.mint_enrk(1, 100, fee, icr_at(5.0, 1.0, 1.0)).unwrap();
    manager.mint_enrk(2, 50, fee, icr_at(5.0, 1.0, 1.0)).unwrap();
    let total = manager.total_enrk_debt();
    assert!(total >= 150);
}

#[test]
fn mint_adds_fee_to_debt() {
    let mut manager = create_test_manager();
    manager.create_vault("addr_test", 1000).unwrap();
    assert_eq!(manager.mint_enrk(1, 100, fee, icr_at(5.0, 1.0, 1.0)), Ok(2));
    assert_eq!(manager.get_vault(1).unwrap().debt_enrk, 102);
    assert_eq!(manager.total_enrk_debt(), 102);
    assert_eq!(manager.total_collateral(), 1000);
    assert_eq!(manager.vault_count(), 1);
}

#[test]
fn mint_refusals_change_nothing() {
    let mut manager = create_test_manager();
    manager.create_vault("addr_test", 100).unwrap();
    assert_eq!(manager.mint_enrk(1, 0, fee, icr_at(1.0, 1.0, 1.0)), Err(IgraError::InvalidDebtAmount));
    assert_eq!(manager.mint_enrk(7, 10, fee, icr_at(1.0, 1.0, 1.0)), Err(IgraError::VaultNotFound(7)));
    // 100 KAS at 1.0 against 102 ENRK of debt: ICR 98%.
    assert_eq!(
        manager.mint_enrk(1, 100, fee, icr_at(1.0, 1.0, 1.0)),
        Err(IgraError::InsufficientCollateral { required_icr: 200, current_icr: 98 })
    );
    assert_eq!(manager.get_vault(1).unwrap().debt_enrk, 0);
    assert_eq!(manager.get_vault(9), Err(IgraError::VaultNotFound(9)));
}

#[test]
fn kfiat_cap_spans_all_vaults() {
    let mut manager = create_test_manager();
    manager.create_vault("owner1", 10_000).unwrap();
    // No ENRK debt yet: any kFIAT is 100% of the debt.
    assert_eq!(
        manager.mint_kfiat(1, 100, fee, cap_breach, icr_at(5.0, 1.0, 1.0)),
        Err(IgraError::KFIATCapExceeded { current_kfiat: 100, max_kfiat: 30 })
    );
    manager.mint_enrk(1, 700, fee, icr_at(5.0, 1.0, 1.0)).unwrap();
    // 714 ENRK of debt; 200 kFIAT plus 4 fee is 204/918 = 22%.
    assert_eq!(manager.mint_kfiat(1, 200, fee, cap_breach, icr_at(5.0, 1.0, 1.0)), Ok(4));
    assert_eq!(manager.total_kfiat_debt(), 204);
    assert_eq!(manager.get_vault(1).unwrap().debt_kfiat, 204);
}

#[test]
fn burns_and_withdrawals() {
    let mut manager = create_test_manager();
    manager.create_vault("addr_test", 1000).unwrap();
    manager.mint_enrk(1, 100, fee, icr_at(5.0, 1.0, 1.0)).unwrap();
    assert_eq!(manager.burn_enrk(1, 500, icr_at(5.0, 1.0, 1.0)), Err(IgraError::InsufficientENRK));
    assert_eq!(manager.burn_enrk(1, 2, icr_at(5.0, 1.0, 1.0)), Ok(()));
    assert_eq!(manager.get_vault(1).unwrap().debt_enrk, 100);
    assert_eq!(
        manager.burn_kfiat(1, 5, icr_at(5.0, 1.0, 1.0)),
        Err(IgraError::InsufficientBalance { required: 5, available: 0 })
    );
    assert_eq!(
        manager.withdraw_collateral(1, 2000, icr_at(5.0, 1.0, 1.0)),
        Err(IgraError::InsufficientBalance { required: 2000, available: 1000 })
    );
    // 30 KAS at 5.0 against 100 of debt is 150%: just enough.
    assert_eq!(manager.withdraw_collateral(1, 970, icr_at(5.0, 1.0, 1.0)), Ok(()));
    assert_eq!(
        manager.withdraw_collateral(1, 1, icr_at(5.0, 1.0, 1.0)),
        Err(IgraError::InsufficientRemainingCollateral)
    );
    assert_eq!(manager.get_vault(1).unwrap().collateral_kas, 30);
}

#[test]
fn close_requires_no_debt() {
    let mut manager = create_test_manager();
    manager.create_vault("addr_test", 1000).unwrap();
    manager.mint_enrk(1, 100, fee, icr_at(5.0, 1.0, 1.0)).unwrap();
    assert_eq!(manager.close_vault(1), Err(IgraError::VaultZeroDebt));
    manager.burn_enrk(1, 102, icr_at(5.0, 1.0, 1.0)).unwrap();
    assert_eq!(manager.close_vault(1), Ok(()));
    assert_eq!(manager.get_vault(1).unwrap().status, VaultStatus::Closed);
    assert_eq!(
        manager.deposit_collateral(1, 5),
        Err(IgraError::InvalidVaultStatus { status: "Closed".to_string() })
    );
    assert_eq!(manager.close_vault(3), Err(IgraError::VaultNotFound(3)));
}

#[test]
fn liquidation_candidates_are_active_and_under_mcr() {
    let mut manager = create_test_manager();
    manager.create_vault("owner1", 1000).unwrap();
    manager.create_vault("owner2", 1000).unwrap();
    manager.create_vault("owner3", 1000).unwrap();
    manager.mint_enrk(1, 1000, fee, icr_at(5.0, 1.0, 1.0)).unwrap();
    manager.mint_enrk(2, 100, fee, icr_at(5.0, 1.0, 1.0)).unwrap();
    // At a KAS price of 1.0, vault 1 owes 1020 against 1000: under 150%.
    let candidates = manager.get_liquidation_candidates(under_at(1.0));
    assert_eq!(candidates.len(), 1);
    assert_eq!(candidates[0].vault_id, 1);
    assert!(manager.get_liquidation_candidates(under_at(5.0)).is_empty());
}

#[test]
fn invalid_manager_parameters() {
    assert_eq!(
        VaultManager::new(CollateralRatios::default(), FeeStructure::default(), 0).err(),
        Some(IgraError::InvalidParameters("kFIAT cap must be 0 < x <= 50%".to_string()))
    );
    assert_eq!(
        VaultManager::new(
            CollateralRatios { icr_minimum: 150, mcr_trigger: 200 },
            FeeStructure::default(),
            30
        )
        .err(),
        Some(IgraError::InvalidParameters("ICR must be greater than MCR".to_string()))
    );
    let mut manager = create_test_manager();
    assert_eq!(manager.create_vault("x", 0), Err(IgraError::InvalidCollateralAmount));
    assert_eq!(
        manager.create_vault("", 5),
        Err(IgraError::InvalidAddress("Owner address empty".to_string()))
    );
    assert_eq!(manager.vault_count(), 0);
}

#[test]
fn vault_kfiat_mint_refused_at_cap() {
    let mut manager = create_test_manager();
    manager.create_vault("owner1", 1000).unwrap();
    assert_eq!(manager.mint_enrk(1, 100, fee, icr_at(5.0, 1.0, 1.0)), Ok(2));
    // 100 kFIAT plus 2 fee against 102 ENRK is 50% of the debt.
    assert_eq!(
        manager.mint_kfiat(1, 100, fee, cap_breach, icr_at(5.0, 1.0, 1.0)),
        Err(IgraError::KFIATCapExceeded { current_kfiat: 50, max_kfiat: 30 })
    );
    assert_eq!(manager.get_vault(1).unwrap().debt_kfiat, 0);
}

#[test]
fn fee_allocations_that_overflow_a_byte_are_refused() {
    let mut fees = FeeStructure::default();
    fees.stability_pool_allocation = 200;
    fees.treasury_allocation = 100;
    assert_eq!(fees.validate(), Err("Fee allocations must sum to 100%".to_string()));
    assert!(VaultManager::new(CollateralRatios::default(), fees, 30).is_err());
}
