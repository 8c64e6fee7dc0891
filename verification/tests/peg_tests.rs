use igra::{IgraError, OracleManager, PegCalculator, PegWeights};

/// Signed whole-percent deviation of a peg price from the 1.0 target.
fn peg_deviation(price: f64) -> i16 {
    (((price - 1.0) / 1.0) * 100.0) as i16
}

#[test]
fn test_peg_calculator_creation() {
    let weights = PegWeights::default();
    let calc = PegCalculator::new(weights);
    assert!(calc.is_ok());
}

#[test]
fn test_peg_health_check() {
    assert!(PegCalculator::is_peg_healthy(peg_deviation(1.0), 10));
    assert!(PegCalculator::is_peg_healthy(peg_deviation(1.08), 10));
    assert!(!PegCalculator::is_peg_healthy(peg_deviation(1.15), 10));
}

#[test]
fn test_oracle_manager_recording() {
    let mut oracle = OracleManager::new();
    oracle.record_price("band", 50000.0f64.to_bits(), 1000);
    oracle.record_price("chainlink", 50100.0f64.to_bits(), 1001);
    let (bits, source, age) = oracle.get_price(1001, 3600).unwrap();
    assert_eq!(f64::from_bits(bits), 50000.0);
    assert_eq!(source, "band");
    assert_eq!(age, 1);
}

#[test]
fn test_oracle_manager_fallback_order() {
    let mut oracle = OracleManager::new();
    oracle.record_price("chainlink", 100.0f64.to_bits(), 1000);
    oracle.record_price("band", 101.0f64.to_bits(), 1000);

    let (price, source, _age) = oracle.get_price(1000, 3600).unwrap();
    assert_eq!(source, "band");
    assert_eq!(f64::from_bits(price), 101.0);
}

#[test]
fn test_oracle_manager_stale_detection() {
    let mut oracle = OracleManager::new();
    oracle.record_price("band", 100.0f64.to_bits(), 1000);

    let result = oracle.get_price(1000 + 7200, 3600);
    assert!(result.is_err());
    assert!(matches!(result, Err(IgraError::OracleDowntime { .. })));
}

#[test]
fn stale_answer_reports_latest_age_in_minutes() {
    let mut oracle = OracleManager::new();
    oracle.record_price("band", 1.0f64.to_bits(), 1000);
    oracle.record_price("chainlink", 1.0f64.to_bits(), 2000);
    assert_eq!(
        oracle.get_price(2000 + 7200, 3600),
        Err(IgraError::OracleDowntime { minutes: 120, threshold: 60 })
    );
    assert!(!oracle.all_sources_healthy(2000 + 7200, 3600));
}

#[test]
fn empty_oracle_has_no_price() {
    let oracle = OracleManager::new();
    assert_eq!(oracle.get_price(10, 10), Err(IgraError::PegPriceUnavailable));
    assert!(oracle.all_sources_healthy(10, 10));
}

#[test]
fn stale_preferred_source_falls_back() {
    let mut oracle = OracleManager::new();
    oracle.record_price("band", 1.0f64.to_bits(), 0);
    oracle.record_price("fallback", 2.0f64.to_bits(), 5000);
    let (bits, source, age) = oracle.get_price(5100, 3600).unwrap();
    assert_eq!(f64::from_bits(bits), 2.0);
    assert_eq!(source, "fallback");
    assert_eq!(age, 100);
    // A newer price from the same source replaces the old one.
    oracle.record_price("band", 3.0f64.to_bits(), 5050);
    let (bits, source, _) = oracle.get_price(5100, 3600).unwrap();
    assert_eq!(f64::from_bits(bits), 3.0);
    assert_eq!(source, "band");
    assert!(oracle.all_sources_healthy(5100, 3600));
}

#[test]
fn unknown_sources_are_never_preferred() {
    let mut oracle = OracleManager::new();
    oracle.record_price("pyth", 1.0f64.to_bits(), 100);
    assert_eq!(
        oracle.get_price(100, 3600),
        Err(IgraError::OracleDowntime { minutes: 0, threshold: 60 })
    );
}

#[test]
fn peg_health_uses_absolute_deviation() {
    assert!(PegCalculator::is_peg_healthy(-10, 10));
    assert!(!PegCalculator::is_peg_healthy(-11, 10));
    assert!(PegCalculator::is_peg_healthy(0, 0));
}

#[test]
fn invalid_weights_are_refused() {
    let weights = PegWeights { hashrate: 50, energy: 30, fees: 20, adoption: 10 };
    assert_eq!(
        PegCalculator::new(weights).err(),
        Some(IgraError::InvalidParameters("Peg weights must sum to 100".to_string()))
    );
    let calc = PegCalculator::new(PegWeights::default()).unwrap();
    assert_eq!(*calc.weights(), PegWeights::default());
}

#[test]
fn large_deviations_are_unhealthy() {
    // 3.6 is 260% above the peg.
    assert!(!PegCalculator::is_peg_healthy(peg_deviation(3.6), 10));
    assert!(!PegCalculator::is_peg_healthy(260, 10));
    assert!(!PegCalculator::is_peg_healthy(i16::MIN, 255));
    assert!(PegCalculator::is_peg_healthy(-255, 255));
}
