use igra::stability_pool::StabilityPoolManager;
use igra::IgraError;

/// The pool's share of a fee: the fee times `allocation / 100`, in binary64, truncated.
fn pool_share(total_fees: i128, allocation: u8) -> u64 {
    let factor = allocation as f64 / 100.0;
    (total_fees as f64 * factor) as u64
}

/// The cost of a buyback at `price`: amount times price, truncated; `None` when not finite.
fn cost_at(price: f64) -> impl Fn(i128) -> Option<u64> {
    move |amount: i128| {
        let cost = amount as f64 * price;
        if cost.is_finite() {
            Some(cost as u64)
        } else {
            None
        }
    }
}

fn buyback(pool: &mut StabilityPoolManager, price: f64, amount: i128) -> Result<(i128, i128), IgraError> {
    pool.attempt_buyback(price < 1.0, amount, cost_at(price))
}

#[test]
fn test_pool_creation() {
    let pool = StabilityPoolManager::new();
    assert_eq!(pool.balance(), 0);
}

#[test]
fn test_deposit_fees() {
    let mut pool = StabilityPoolManager::new();
    let deposited = pool.deposit_fees(1000, 80, pool_share).unwrap();
    assert_eq!(deposited, 800);
    assert_eq!(pool.balance(), 800);
}

#[test]
fn test_deposit_fees_different_allocation() {
    let mut pool = StabilityPoolManager::new();
    let deposited = pool.deposit_fees(1000, 50, pool_share).unwrap();
    assert_eq!(deposited, 500);
}

#[test]
fn test_cumulative_fees_tracking() {
    let mut pool = StabilityPoolManager::new();
    pool.deposit_fees(100, 80, pool_share).unwrap();
    pool.deposit_fees(200, 80, pool_share).unwrap();
    assert_eq!(pool.cumulative_fees(), 300);
}

#[test]
fn test_attempted_buyback_above_peg() {
    let mut pool = StabilityPoolManager::new();
    pool.deposit_fees(1000, 80, pool_share).unwrap();
    let result = buyback(&mut pool, 1.05, 100);
    assert!(result.is_err());
    assert!(matches!(result, Err(IgraError::PriceAbovePeg)));
}

#[test]
fn test_successful_buyback() {
    let mut pool = StabilityPoolManager::new();
    pool.deposit_fees(1000, 80, pool_share).unwrap();
    let (burned, cost) = buyback(&mut pool, 0.95, 100).unwrap();
    assert_eq!(burned, 100);
    assert_eq!(cost, 95);
    assert_eq!(pool.balance(), 700);
}

#[test]
fn test_buyback_insufficient_balance() {
    let mut pool = StabilityPoolManager::new();
    pool.deposit_fees(100, 80, pool_share).unwrap();
    let result = buyback(&mut pool, 0.95, 200);
    assert!(result.is_err());
    assert!(matches!(result, Err(IgraError::BuybackExceedsPoolBalance)));
}

#[test]
fn test_has_sufficient_balance() {
    let mut pool = StabilityPoolManager::new();
    pool.deposit_fees(1000, 80, pool_share).unwrap();
    assert!(pool.has_sufficient_balance(500));
    assert!(pool.has_sufficient_balance(800));
    assert!(!pool.has_sufficient_balance(900));
}

#[test]
fn test_liquidation_proceeds() {
    let mut pool = StabilityPoolManager::new();
    pool.deposit_liquidation_proceeds(500).unwrap();
    assert_eq!(pool.balance(), 500);
}

#[test]
fn test_stats() {
    let mut pool = StabilityPoolManager::new();
    pool.deposit_fees(1000, 80, pool_share).unwrap();
    let stats = pool.stats();
    assert_eq!(stats.balance, 800);
    assert_eq!(stats.cumulative_fees, 1000);
}

#[test]
fn refused_deposits_and_buybacks_change_nothing() {
    let mut pool = StabilityPoolManager::new();
    assert_eq!(
        pool.deposit_fees(0, 80, pool_share),
        Err(IgraError::InvalidParameters("Fees must be positive".to_string()))
    );
    assert_eq!(
        pool.deposit_liquidation_proceeds(-1),
        Err(IgraError::InvalidParameters("Proceeds cannot be negative".to_string()))
    );
    pool.deposit_liquidation_proceeds(10).unwrap();
    assert_eq!(
        buyback(&mut pool, 0.5, 0),
        Err(IgraError::InvalidParameters("Buyback amount must be positive".to_string()))
    );
    assert_eq!(
        buyback(&mut pool, f64::NEG_INFINITY, 5),
        Err(IgraError::CalculationOverflow("Cost calculation overflowed".to_string()))
    );
    assert_eq!(pool.balance(), 10);
    assert_eq!(pool.cumulative_fees(), 0);
    assert_eq!(pool.last_buyback(), 0);
}

#[test]
fn buyback_records_its_time() {
    let mut pool = StabilityPoolManager::new();
    pool.deposit_liquidation_proceeds(100).unwrap();
    assert_eq!(pool.attempt_buyback_at(true, 40, cost_at(0.5), 1234), Ok((40, 20)));
    assert_eq!(pool.last_buyback(), 1234);
    assert_eq!(pool.balance(), 60);
    let stats = pool.stats();
    assert_eq!(stats.last_buyback, 1234);
}

#[test]
fn pool_totals_refuse_overflow() {
    let mut pool = StabilityPoolManager::new();
    pool.deposit_liquidation_proceeds(i128::MAX).unwrap();
    assert!(matches!(pool.deposit_liquidation_proceeds(1), Err(IgraError::CalculationOverflow(_))));
    assert!(matches!(pool.deposit_fees(100, 80, pool_share), Err(IgraError::CalculationOverflow(_))));
    assert_eq!(pool.balance(), i128::MAX);
    assert_eq!(pool.cumulative_fees(), 0);
}
