use igra::kaspa_adapter::SOMPI_PER_KAS;
use igra::{IgraError, KaspaAddressValidator, KaspaTransactionBuilder};

#[test]
fn test_build_deposit_tx() {
    let tx = KaspaTransactionBuilder::build_deposit_tx("kaspa:from_addr", "kaspa:vault_addr", 100);
    assert!(tx.is_ok());
    assert!(tx.unwrap().contains("deposit"));
}

#[test]
fn test_build_liquidation_tx() {
    let tx =
        KaspaTransactionBuilder::build_liquidation_tx("kaspa:vault_addr", "kaspa:liquidator_addr", 50);
    assert!(tx.is_ok());
    assert!(tx.unwrap().contains("liquidate"));
}

#[test]
fn test_build_enrk_mint_tx() {
    let tx = KaspaTransactionBuilder::build_enrk_mint_tx("kaspa:user_addr", 100);
    assert!(tx.is_ok());
    assert!(tx.unwrap().contains("mint_enrk"));
}

#[test]
fn test_address_validation_mainnet() {
    assert!(KaspaAddressValidator::is_valid_mainnet_address("kaspa:something_valid"));
    assert!(!KaspaAddressValidator::is_valid_mainnet_address("kaspatest:something"));
    assert!(!KaspaAddressValidator::is_valid_mainnet_address("invalid"));
}

#[test]
fn test_address_validation_testnet() {
    assert!(KaspaAddressValidator::is_valid_testnet_address("kaspatest:something_valid"));
    assert!(!KaspaAddressValidator::is_valid_testnet_address("kaspa:something"));
}

#[test]
fn test_sompi_conversion() {
    let kas: i128 = 1;
    let sompi = kas * SOMPI_PER_KAS as i128;
    assert_eq!(sompi, 100_000_000);
}

#[test]
fn transaction_ids_are_exact() {
    assert_eq!(
        KaspaTransactionBuilder::build_deposit_tx("kaspa:from_addr", "kaspa:vault_addr", 100),
        Ok("tx_deposit_kaspa:fr_kaspa:va".to_string())
    );
    assert_eq!(
        KaspaTransactionBuilder::build_liquidation_tx("ab", "kaspa:liquidator_addr", 1),
        Ok("tx_liquidate_ab_kaspa:li".to_string())
    );
    assert_eq!(
        KaspaTransactionBuilder::build_enrk_mint_tx("kaspa:user_addr", 100),
        Ok("tx_mint_enrk_kaspa:user_a".to_string())
    );
    assert_eq!(
        KaspaTransactionBuilder::build_kfiat_mint_tx("kaspa:user_addr", 7),
        Ok("tx_mint_kfiat_kaspa:user_a".to_string())
    );
}

#[test]
fn transaction_builders_refuse_bad_input() {
    assert_eq!(
        KaspaTransactionBuilder::build_deposit_tx("", "kaspa:vault_addr", 100),
        Err(IgraError::InvalidParameters("Addresses cannot be empty".to_string()))
    );
    assert_eq!(
        KaspaTransactionBuilder::build_deposit_tx("a", "b", 0),
        Err(IgraError::InvalidParameters("Deposit amount must be positive".to_string()))
    );
    assert_eq!(
        KaspaTransactionBuilder::build_liquidation_tx("a", "", 5),
        Err(IgraError::InvalidParameters("Addresses cannot be empty".to_string()))
    );
    assert_eq!(
        KaspaTransactionBuilder::build_liquidation_tx("a", "b", -5),
        Err(IgraError::InvalidParameters("Collateral must be positive".to_string()))
    );
    assert_eq!(
        KaspaTransactionBuilder::build_kfiat_mint_tx("", 5),
        Err(IgraError::InvalidParameters("Address cannot be empty".to_string()))
    );
    assert_eq!(
        KaspaTransactionBuilder::build_enrk_mint_tx("a", 0),
        Err(IgraError::InvalidParameters("Mint amount must be positive".to_string()))
    );
}

#[test]
fn address_length_limits() {
    // "kaspa:" plus four characters is exactly 10 bytes: too short.
    assert!(!KaspaAddressValidator::is_valid_mainnet_address("kaspa:abcd"));
    assert!(KaspaAddressValidator::is_valid_mainnet_address("kaspa:abcde"));
    assert!(!KaspaAddressValidator::is_valid_testnet_address("kaspatest:abcde"));
    assert!(KaspaAddressValidator::is_valid_testnet_address("kaspatest:abcdef"));
    assert!(KaspaAddressValidator::is_valid_address("kaspatest:abcdef"));
    assert!(!KaspaAddressValidator::is_valid_address("bitcoin:abcdefghijk"));
}
