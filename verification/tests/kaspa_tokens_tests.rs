use igra::kaspa_tokens::TOKEN_DECIMALS;
use igra::{IgraError, TokenLayer, TokenLedger, TokenType};

const ALICE: &str = "kaspa:alice_address";
const BOB: &str = "kaspa:bob_address";
const TESTNET_CAROL: &str = "kaspatest:carol_address";

fn layer() -> TokenLayer {
    TokenLayer::new(30).unwrap()
}

#[test]
fn test_ledger_starts_empty() {
    let ledger = TokenLedger::new(TokenType::Enrk);
    assert_eq!(ledger.total_supply(), 0);
    assert_eq!(ledger.holder_count(), 0);
    assert_eq!(ledger.decimals(), TOKEN_DECIMALS);
    assert_eq!(ledger.token_type(), TokenType::Enrk);
}

#[test]
fn test_mint_increases_supply_and_balance() {
    let mut ledger = TokenLedger::new(TokenType::Enrk);
    let balance = ledger.mint(ALICE, 100).unwrap();

    assert_eq!(balance, 100);
    assert_eq!(ledger.total_supply(), 100);
    assert_eq!(ledger.balance_of(ALICE), 100);
    assert_eq!(ledger.holder_count(), 1);
    assert!(ledger.verify_invariant().is_ok());
}

#[test]
fn test_mint_rejects_invalid_address_and_amount() {
    let mut ledger = TokenLedger::new(TokenType::Enrk);

    let bad_addr = ledger.mint("not_a_kaspa_address", 100);
    assert!(matches!(bad_addr, Err(IgraError::InvalidAddress(_))));

    let zero = ledger.mint(ALICE, 0);
    assert_eq!(zero, Err(IgraError::InvalidDebtAmount));

    let negative = ledger.mint(ALICE, -50);
    assert_eq!(negative, Err(IgraError::InvalidDebtAmount));

    assert_eq!(ledger.total_supply(), 0);
    assert_eq!(ledger.holder_count(), 0);
}

#[test]
fn test_mint_accepts_testnet_address() {
    let mut ledger = TokenLedger::new(TokenType::Enrk);
    assert!(ledger.mint(TESTNET_CAROL, 10).is_ok());
    assert_eq!(ledger.balance_of(TESTNET_CAROL), 10);
}

#[test]
fn test_burn_reduces_supply_and_prunes_zero_balance() {
    let mut ledger = TokenLedger::new(TokenType::Enrk);
    ledger.mint(ALICE, 100).unwrap();

    let remaining = ledger.burn(ALICE, 40).unwrap();
    assert_eq!(remaining, 60);
    assert_eq!(ledger.total_supply(), 60);
    assert_eq!(ledger.holder_count(), 1);

    let remaining = ledger.burn(ALICE, 60).unwrap();
    assert_eq!(remaining, 0);
    assert_eq!(ledger.total_supply(), 0);
    assert_eq!(ledger.holder_count(), 0);
    assert!(ledger.verify_invariant().is_ok());
}

#[test]
fn test_burn_rejects_insufficient_balance() {
    let mut ledger = TokenLedger::new(TokenType::Enrk);
    ledger.mint(ALICE, 50).unwrap();

    let result = ledger.burn(ALICE, 80);
    assert!(matches!(
        result,
        Err(IgraError::InsufficientBalance { required: 80, available: 50 })
    ));

    assert_eq!(ledger.total_supply(), 50);
    assert_eq!(ledger.balance_of(ALICE), 50);
}

#[test]
fn test_transfer_moves_balance_without_changing_supply() {
    let mut ledger = TokenLedger::new(TokenType::Enrk);
    ledger.mint(ALICE, 100).unwrap();

    ledger.transfer(ALICE, BOB, 30).unwrap();

    assert_eq!(ledger.balance_of(ALICE), 70);
    assert_eq!(ledger.balance_of(BOB), 30);
    assert_eq!(ledger.total_supply(), 100);
    assert_eq!(ledger.holder_count(), 2);
    assert!(ledger.verify_invariant().is_ok());
}

#[test]
fn test_transfer_rejects_self_and_overdraft() {
    let mut ledger = TokenLedger::new(TokenType::Enrk);
    ledger.mint(ALICE, 100).unwrap();

    let self_send = ledger.transfer(ALICE, ALICE, 10);
    assert!(matches!(self_send, Err(IgraError::InvalidParameters(_))));

    let overdraft = ledger.transfer(ALICE, BOB, 500);
    assert!(matches!(overdraft, Err(IgraError::InsufficientBalance { .. })));

    assert_eq!(ledger.balance_of(ALICE), 100);
    assert_eq!(ledger.balance_of(BOB), 0);
}

#[test]
fn test_transfer_full_balance_prunes_sender() {
    let mut ledger = TokenLedger::new(TokenType::Kfiat);
    ledger.mint(ALICE, 25).unwrap();

    ledger.transfer(ALICE, BOB, 25).unwrap();

    assert_eq!(ledger.balance_of(ALICE), 0);
    assert_eq!(ledger.balance_of(BOB), 25);
    assert_eq!(ledger.holder_count(), 1);
    assert!(ledger.verify_invariant().is_ok());
}

#[test]
fn test_token_layer_rejects_invalid_cap() {
    assert!(TokenLayer::new(0).is_err());
    assert!(TokenLayer::new(100).is_err());
    assert!(TokenLayer::new(30).is_ok());
}

#[test]
fn test_token_type_symbols() {
    assert_eq!(TokenType::Enrk.symbol(), "ENRK");
    assert_eq!(TokenType::Kfiat.symbol(), "kFIAT");
    assert_eq!(TokenType::Kfiat.to_string(), "kFIAT");
}

#[test]
fn test_kfiat_cannot_be_minted_without_enrk() {
    let mut layer = layer();

    let result = layer.mint_kfiat(ALICE, 1);
    assert!(matches!(result, Err(IgraError::KFIATCapExceeded { .. })));
    assert_eq!(layer.kfiat_ledger().total_supply(), 0);
}

#[test]
fn test_kfiat_mint_within_cap() {
    let mut layer = layer();
    layer.mint_enrk(ALICE, 700).unwrap();

    let balance = layer.mint_kfiat(ALICE, 300).unwrap();

    assert_eq!(balance, 300);
    assert_eq!(layer.kfiat_ratio_percent(), 30);
    assert_eq!(layer.total_debt(), 1000);
    assert!(layer.verify_invariants().is_ok());
}

#[test]
fn test_kfiat_mint_at_cap_boundary_is_rejected_one_over() {
    let mut layer = layer();
    layer.mint_enrk(ALICE, 700).unwrap();

    let result = layer.mint_kfiat(ALICE, 301);
    assert!(matches!(result, Err(IgraError::KFIATCapExceeded { .. })));

    assert_eq!(layer.kfiat_ledger().total_supply(), 0);
    assert_eq!(layer.kfiat_ratio_percent(), 0);
}

#[test]
fn test_kfiat_cap_holds_across_many_small_mints() {
    let mut layer = layer();
    layer.mint_enrk(ALICE, 700).unwrap();

    let mut minted: i128 = 0;
    for _ in 0..100 {
        if layer.mint_kfiat(BOB, 10).is_ok() {
            minted += 10;
        }
    }

    assert_eq!(minted, 300);
    assert_eq!(layer.kfiat_ledger().total_supply(), 300);
    assert!(layer.kfiat_ratio_percent() <= 30);
    assert!(layer.verify_invariants().is_ok());
}

#[test]
fn test_max_mintable_kfiat() {
    let mut layer = layer();
    layer.mint_enrk(ALICE, 700).unwrap();

    assert_eq!(layer.max_mintable_kfiat(), 300);

    layer.mint_kfiat(ALICE, 300).unwrap();

    assert_eq!(layer.max_mintable_kfiat(), 0);
    assert!(layer.would_exceed_kfiat_cap(1));
}

#[test]
fn test_minting_enrk_reopens_kfiat_headroom() {
    let mut layer = layer();
    layer.mint_enrk(ALICE, 700).unwrap();
    layer.mint_kfiat(ALICE, 300).unwrap();

    assert!(layer.would_exceed_kfiat_cap(1));

    layer.mint_enrk(BOB, 700).unwrap();

    assert_eq!(layer.max_mintable_kfiat(), 300);
    assert!(layer.mint_kfiat(BOB, 300).is_ok());
    assert_eq!(layer.kfiat_ratio_percent(), 30);
}

#[test]
fn test_burning_kfiat_is_always_allowed_and_lowers_ratio() {
    let mut layer = layer();
    layer.mint_enrk(ALICE, 700).unwrap();
    layer.mint_kfiat(ALICE, 300).unwrap();
    assert_eq!(layer.kfiat_ratio_percent(), 30);

    layer.burn_kfiat(ALICE, 200).unwrap();

    assert_eq!(layer.kfiat_ratio_percent(), 12);
    assert!(layer.verify_invariants().is_ok());
}

#[test]
fn test_burning_enrk_can_leave_ratio_above_cap() {
    let mut layer = layer();
    layer.mint_enrk(ALICE, 700).unwrap();
    layer.mint_kfiat(BOB, 300).unwrap();

    layer.burn_enrk(ALICE, 600).unwrap();

    assert_eq!(layer.kfiat_ratio_percent(), 75);
    assert_eq!(layer.max_mintable_kfiat(), 0);
    assert!(layer.would_exceed_kfiat_cap(1));
    assert!(layer.mint_kfiat(BOB, 1).is_err());

    assert!(matches!(layer.verify_invariants(), Err(IgraError::StateInconsistency(_))));
}

#[test]
fn test_tranches_have_independent_balances() {
    let mut layer = layer();
    layer.mint_enrk(ALICE, 1000).unwrap();
    layer.mint_kfiat(ALICE, 100).unwrap();

    assert_eq!(layer.balance_of(ALICE, TokenType::Enrk), 1000);
    assert_eq!(layer.balance_of(ALICE, TokenType::Kfiat), 100);

    layer.burn_kfiat(ALICE, 100).unwrap();
    assert_eq!(layer.balance_of(ALICE, TokenType::Enrk), 1000);
    assert_eq!(layer.balance_of(ALICE, TokenType::Kfiat), 0);
}

#[test]
fn test_transfers_do_not_change_supply_or_ratio() {
    let mut layer = layer();
    layer.mint_enrk(ALICE, 700).unwrap();
    layer.mint_kfiat(ALICE, 300).unwrap();

    let before = layer.supply_stats();

    layer.transfer_enrk(ALICE, BOB, 350).unwrap();
    layer.transfer_kfiat(ALICE, BOB, 150).unwrap();

    let after = layer.supply_stats();

    assert_eq!(before.enrk_supply, after.enrk_supply);
    assert_eq!(before.kfiat_supply, after.kfiat_supply);
    assert_eq!(before.kfiat_ratio_percent, after.kfiat_ratio_percent);
    assert_eq!(after.enrk_holders, 2);
    assert_eq!(after.kfiat_holders, 2);
    assert!(layer.verify_invariants().is_ok());
}

#[test]
fn test_supply_stats_snapshot() {
    let mut layer = layer();
    layer.mint_enrk(ALICE, 900).unwrap();
    layer.mint_kfiat(BOB, 100).unwrap();

    let stats = layer.supply_stats();

    assert_eq!(stats.enrk_supply, 900);
    assert_eq!(stats.kfiat_supply, 100);
    assert_eq!(stats.total_debt, 1000);
    assert_eq!(stats.kfiat_ratio_percent, 10);
    assert_eq!(stats.kfiat_cap_percent, 30);
    assert_eq!(stats.enrk_holders, 1);
    assert_eq!(stats.kfiat_holders, 1);
}

#[test]
fn test_empty_layer_stats_and_invariants() {
    let layer = layer();
    let stats = layer.supply_stats();

    assert_eq!(stats.total_debt, 0);
    assert_eq!(stats.kfiat_ratio_percent, 0);
    assert_eq!(layer.max_mintable_kfiat(), 0);
    assert!(!layer.would_exceed_kfiat_cap(0));
    assert!(layer.verify_invariants().is_ok());
}

#[test]
fn test_large_amounts_use_exact_integer_math() {
    let mut layer = layer();

    let big_enrk: i128 = 10_000_000i128 * 100_000_000i128;
    layer.mint_enrk(ALICE, big_enrk).unwrap();

    let headroom = layer.max_mintable_kfiat();
    assert_eq!(headroom, (30i128 * big_enrk) / 70i128);

    layer.mint_kfiat(BOB, headroom).unwrap();
    assert!(layer.kfiat_ratio_percent() <= 30);
    assert!(layer.verify_invariants().is_ok());
}

#[test]
fn ledger_tracks_each_holder_separately() {
    let mut ledger = TokenLedger::new(TokenType::Kfiat);
    ledger.mint(ALICE, 5).unwrap();
    ledger.mint(BOB, 7).unwrap();
    assert_eq!(ledger.mint(ALICE, 3), Ok(8));
    assert_eq!(ledger.total_supply(), 15);
    assert_eq!(ledger.sum_of_balances(), 15);
    assert_eq!(ledger.holder_count(), 2);
    assert_eq!(ledger.token_type(), TokenType::Kfiat);
}

#[test]
fn burn_errors_name_the_input() {
    let mut ledger = TokenLedger::new(TokenType::Enrk);
    assert!(matches!(ledger.burn("nope", 1), Err(IgraError::InvalidAddress(_))));
    assert_eq!(ledger.burn(ALICE, 0), Err(IgraError::InvalidDebtAmount));
    assert_eq!(
        ledger.burn(ALICE, 1),
        Err(IgraError::InsufficientBalance { required: 1, available: 0 })
    );
    assert!(matches!(ledger.transfer(ALICE, "bad", 1), Err(IgraError::InvalidAddress(_))));
    assert_eq!(ledger.transfer(ALICE, BOB, -1), Err(IgraError::InvalidDebtAmount));
}

#[test]
fn cap_error_reports_ratio_after_mint() {
    let mut layer = layer();
    layer.mint_enrk(ALICE, 700).unwrap();
    assert_eq!(
        layer.mint_kfiat(ALICE, 301),
        Err(IgraError::KFIATCapExceeded { current_kfiat: 30, max_kfiat: 30 })
    );
    assert_eq!(layer.kfiat_cap_percent(), 30);
    assert_eq!(layer.enrk_ledger().total_supply(), 700);
}

#[test]
fn cap_is_exact_for_very_large_supplies() {
    let mut layer = layer();
    // Far beyond a hundredth of i128::MAX.
    let enrk: i128 = 7 * 10i128.pow(37);
    layer.mint_enrk(ALICE, enrk).unwrap();
    let headroom = layer.max_mintable_kfiat();
    assert_eq!(headroom, 3 * 10i128.pow(37));
    assert!(!layer.would_exceed_kfiat_cap(headroom));
    assert!(layer.would_exceed_kfiat_cap(headroom + 1));
    assert_eq!(
        layer.mint_kfiat(BOB, headroom + 1),
        Err(IgraError::KFIATCapExceeded { current_kfiat: 30, max_kfiat: 30 })
    );
    assert_eq!(layer.mint_kfiat(BOB, headroom), Ok(headroom));
    assert_eq!(layer.kfiat_ratio_percent(), 30);
    assert_eq!(layer.total_debt(), 10i128.pow(38));
    assert!(layer.verify_invariants().is_ok());
}

#[test]
fn headroom_beyond_i128_saturates() {
    let mut layer = TokenLayer::new(99).unwrap();
    layer.mint_enrk(ALICE, 10i128.pow(38)).unwrap();
    assert_eq!(layer.max_mintable_kfiat(), i128::MAX);
    assert!(matches!(layer.mint_enrk(ALICE, i128::MAX), Err(IgraError::CalculationOverflow(_))));
}
