use igra::{
    IgraError, LiquidationAuction, LiquidationManager, LiquidationParams, Vault, VaultStatus,
};
use std::time::{SystemTime, UNIX_EPOCH};

fn now_seconds() -> u64 {
    SystemTime::now().duration_since(UNIX_EPOCH).map(|d| d.as_secs()).unwrap_or(0)
}

fn icr(v: &Vault, kas_price: f64, enrk_price: f64, kfiat_price: f64) -> f64 {
    let collateral = v.collateral_kas as f64 * kas_price;
    let debt = v.debt_enrk as f64 * enrk_price + v.debt_kfiat as f64 * kfiat_price;
    if debt == 0.0 {
        return f64::INFINITY;
    }
    (collateral / debt) * 100.0
}

/// Starts a liquidation at the given prices, as the protocol does.
fn start(
    manager: &mut LiquidationManager,
    vault: &Vault,
    kas_price: f64,
    enrk_price: f64,
    kfiat_price: f64,
    mcr: u16,
) -> Result<u64, IgraError> {
    let ratio = icr(vault, kas_price, enrk_price, kfiat_price);
    manager.start_liquidation(vault, ratio < mcr as f64, ratio as u16, mcr)
}

/// Prices a bid at the auction's current price: checks it covers the debt and
/// returns the KAS it buys.
fn collateral_at(kas_price: f64, end_price: u8) -> impl Fn(&LiquidationAuction, i128, u64) -> Result<i128, IgraError> {
    move |a: &LiquidationAuction, bid: i128, now: u64| {
        let elapsed = (now - a.started_at_seconds) / 60;
        let elapsed_percent = (elapsed as f64 / a.duration_minutes as f64) * 100.0;
        let price: u8 = if elapsed_percent >= 100.0 {
            end_price
        } else {
            let range = (100u16 - end_price as u16) as f64;
            (100.0 - (elapsed_percent * range / 100.0)).max(end_price as f64) as u8
        };
        let required = a.debt_to_cover as f64 / (kas_price * (price as f64 / 100.0));
        let bid_f = bid as f64;
        if bid_f < required {
            return Err(IgraError::BidTooLow { bid: bid_f as u64, required: required as u64, price });
        }
        Ok(((bid_f * (price as f64 / 100.0)) / kas_price) as i128)
    }
}

fn fee(amount: i128, bps: u16) -> u64 {
    (amount as f64 * (bps as f64 / 10000.0)) as u64
}

fn create_test_manager() -> LiquidationManager {
    LiquidationManager::new(LiquidationParams::default()).unwrap()
}

fn create_test_vault(vault_id: u64) -> Vault {
    Vault {
        vault_id,
        owner: "addr_test".to_string(),
        collateral_kas: 100,
        debt_enrk: 50,
        debt_kfiat: 10,
        status: VaultStatus::Active,
        created_at_seconds: 0,
        last_updated_seconds: 0,
    }
}

#[test]
fn test_liquidation_manager_creation() {
    let manager = create_test_manager();
    assert_eq!(manager.auction_count(), 0);
}

#[test]
fn test_start_liquidation() {
    let mut manager = create_test_manager();
    let vault = create_test_vault(1);
    let auction_id = start(&mut manager, &vault, 0.5, 1.0, 1.0, 150).unwrap();
    assert_eq!(auction_id, 1);
    assert_eq!(manager.auction_count(), 1);
}

#[test]
fn test_start_liquidation_healthy_vault() {
    let mut manager = create_test_manager();
    let vault = Vault {
        vault_id: 1,
        owner: "addr_test".to_string(),
        collateral_kas: 1000,
        debt_enrk: 50,
        debt_kfiat: 0,
        status: VaultStatus::Active,
        created_at_seconds: 0,
        last_updated_seconds: 0,
    };
    let result = start(&mut manager, &vault, 5.0, 1.0, 1.0, 150);
    assert!(result.is_err());
    assert!(matches!(result, Err(IgraError::VaultHealthy { .. })));
}

#[test]
fn test_active_auction_listing() {
    let mut manager = create_test_manager();
    let vault = create_test_vault(1);
    start(&mut manager, &vault, 0.5, 1.0, 1.0, 150).unwrap();
    let active = manager.get_active_auctions();
    assert_eq!(active.len(), 1);
}

#[test]
fn test_expired_auction_detection() {
    let mut manager = create_test_manager();
    let now = now_seconds();
    let vault = create_test_vault(1);
    manager.start_liquidation_at(&vault, true, 83, 150, now - 8000).unwrap();
    let expired = manager.get_expired_auctions();
    assert_eq!(expired.len(), 1);
}

#[test]
fn auction_offers_collateral_against_whole_debt() {
    let mut manager = create_test_manager();
    let vault = create_test_vault(4);
    assert_eq!(manager.start_liquidation_at(&vault, true, 83, 150, 1000), Ok(1));
    assert_eq!(
        manager.get_auction(1),
        Ok(LiquidationAuction {
            auction_id: 1,
            vault_id: 4,
            collateral_kas: 100,
            debt_to_cover: 60,
            started_at_seconds: 1000,
            duration_minutes: 120,
        })
    );
    assert_eq!(
        manager.start_liquidation_at(&vault, true, 83, 150, 1001),
        Err(IgraError::AuctionAlreadyExists(4))
    );
    assert_eq!(
        manager.start_liquidation_at(&create_test_vault(5), false, 300, 150, 1001),
        Err(IgraError::VaultHealthy { icr: 300, mcr: 150 })
    );
    assert_eq!(manager.get_auction(2), Err(IgraError::AuctionNotFound(2)));
    assert_eq!(manager.start_liquidation_at(&create_test_vault(5), true, 90, 150, 1002), Ok(2));
    assert_eq!(manager.auction_count(), 2);
}

#[test]
fn bids_settle_auctions() {
    let mut manager = create_test_manager();
    let vault = create_test_vault(1);
    manager.start_liquidation_at(&vault, true, 83, 150, 0).unwrap();
    // At the start the price is 100%: covering 60 of debt at a KAS price of 1.0 needs 60.
    assert_eq!(
        manager.submit_bid_at(1, 59, 400, 0, collateral_at(1.0, 85), fee),
        Err(IgraError::BidTooLow { bid: 59, required: 60, price: 100 })
    );
    assert_eq!(
        manager.submit_bid_at(1, 200, 400, 0, collateral_at(1.0, 85), fee),
        Err(IgraError::BidExceedsCollateral)
    );
    assert_eq!(manager.auction_count(), 1);
    assert_eq!(manager.submit_bid_at(1, 100, 400, 0, collateral_at(1.0, 85), fee), Ok((100, 4)));
    assert_eq!(manager.auction_count(), 0);
    assert_eq!(
        manager.submit_bid_at(1, 100, 400, 0, collateral_at(1.0, 85), fee),
        Err(IgraError::AuctionNotFound(1))
    );
    assert_eq!(
        manager.submit_bid_at(1, 0, 400, 0, collateral_at(1.0, 85), fee),
        Err(IgraError::InvalidParameters("Bid amount must be positive".to_string()))
    );
}

#[test]
fn expired_auctions_refuse_bids_and_can_be_finalized() {
    let mut manager = create_test_manager();
    manager.start_liquidation_at(&create_test_vault(1), true, 83, 150, 0).unwrap();
    manager.start_liquidation_at(&create_test_vault(2), true, 83, 150, 3600).unwrap();
    assert_eq!(
        manager.submit_bid_at(1, 100, 400, 7200, collateral_at(1.0, 85), fee),
        Err(IgraError::AuctionExpired)
    );
    assert_eq!(manager.get_expired_auctions_at(7200).len(), 1);
    assert_eq!(manager.get_active_auctions_at(7200).len(), 1);
    assert_eq!(manager.get_active_auctions_at(7200)[0].vault_id, 2);
    assert_eq!(manager.finalize_expired_auction_at(2, 7200), Err(IgraError::AuctionStillActive));
    assert_eq!(manager.finalize_expired_auction_at(1, 7200), Ok(()));
    assert_eq!(manager.finalize_expired_auction_at(1, 7200), Err(IgraError::AuctionNotFound(1)));
    assert_eq!(manager.auction_count(), 1);
    assert_eq!(manager.params(), LiquidationParams::default());
}

#[test]
fn invalid_auction_parameters() {
    let params = LiquidationParams { duration_minutes: 0, start_price: 100, end_price: 85 };
    assert_eq!(
        LiquidationManager::new(params).err(),
        Some(IgraError::InvalidParameters("Liquidation duration must be > 0".to_string()))
    );
}
