use igra::{
    CircuitBreakerParams, CollateralRatios, FeeStructure, LiquidationAuction, LiquidationParams,
    PegWeights,
};

#[test]
fn test_peg_weights_valid() {
    let weights = PegWeights::default();
    assert_eq!(weights.validate(), Ok(()));
}

#[test]
fn test_peg_weights_invalid_sum() {
    let weights = PegWeights { hashrate: 50, energy: 30, fees: 20, adoption: 10 };
    assert!(weights.validate().is_err());
}

#[test]
fn test_collateral_ratios_valid() {
    let ratios = CollateralRatios::default();
    assert_eq!(ratios.validate(), Ok(()));
}

#[test]
fn test_collateral_ratios_invalid() {
    let ratios = CollateralRatios { icr_minimum: 150, mcr_trigger: 200 };
    assert!(ratios.validate().is_err());
}

#[test]
fn test_liquidation_params_valid() {
    let params = LiquidationParams::default();
    assert_eq!(params.validate(), Ok(()));
}

#[test]
fn test_fee_structure_valid() {
    let fees = FeeStructure::default();
    assert_eq!(fees.validate(), Ok(()));
}

#[test]
fn test_circuit_breaker_valid() {
    let cb = CircuitBreakerParams::default();
    assert_eq!(cb.validate(), Ok(()));
}

#[test]
fn test_liquidation_auction_expiry() {
    let auction = LiquidationAuction {
        auction_id: 1,
        vault_id: 1,
        collateral_kas: 100,
        debt_to_cover: 50,
        started_at_seconds: 1000,
        duration_minutes: 120,
    };
    assert!(!auction.is_expired(1000 + 6000));
    assert!(auction.is_expired(1000 + 7200));
}

#[test]
fn test_validation_messages() {
    assert_eq!(
        PegWeights { hashrate: 50, energy: 30, fees: 20, adoption: 10 }.validate(),
        Err("Peg weights must sum to 100".to_string())
    );
    assert_eq!(
        CollateralRatios { icr_minimum: 150, mcr_trigger: 200 }.validate(),
        Err("ICR must be greater than MCR".to_string())
    );
    assert_eq!(
        CollateralRatios { icr_minimum: 150, mcr_trigger: 90 }.validate(),
        Err("MCR must be at least 100%".to_string())
    );
    assert_eq!(
        LiquidationParams { duration_minutes: 0, start_price: 100, end_price: 85 }.validate(),
        Err("Liquidation duration must be > 0".to_string())
    );
    assert_eq!(
        LiquidationParams { duration_minutes: 10, start_price: 80, end_price: 85 }.validate(),
        Err("Start price must be greater than end price".to_string())
    );
    assert_eq!(
        LiquidationParams { duration_minutes: 10, start_price: 101, end_price: 85 }.validate(),
        Err("Start price cannot exceed 100%".to_string())
    );
    assert_eq!(
        LiquidationParams { duration_minutes: 10, start_price: 100, end_price: 0 }.validate(),
        Err("End price must be > 0".to_string())
    );
    let mut fees = FeeStructure::default();
    fees.treasury_allocation = 30;
    assert_eq!(fees.validate(), Err("Fee allocations must sum to 100%".to_string()));
    let mut fees = FeeStructure::default();
    fees.mint_fee_bps = 10001;
    assert_eq!(fees.validate(), Err("Fee cannot exceed 100%".to_string()));
    assert_eq!(
        CircuitBreakerParams { peg_deviation_threshold: 51, oracle_downtime_threshold_minutes: 1 }
            .validate(),
        Err("Peg deviation threshold must be 0 < x <= 50%".to_string())
    );
    assert_eq!(
        CircuitBreakerParams { peg_deviation_threshold: 10, oracle_downtime_threshold_minutes: 0 }
            .validate(),
        Err("Oracle downtime threshold must be > 0".to_string())
    );
}

#[test]
fn test_auction_expiry_counts_whole_minutes() {
    let auction = LiquidationAuction {
        auction_id: 3,
        vault_id: 9,
        collateral_kas: 10,
        debt_to_cover: 5,
        started_at_seconds: 0,
        duration_minutes: 2,
    };
    assert!(!auction.is_expired(119));
    assert!(auction.is_expired(120));
}
