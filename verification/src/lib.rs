//! ENRK Igra: an over-collateralised, energy-indexed stablecoin whose parameters
//! are frozen at compile time.
//!
//! - `types`: parameter sets, vaults, auctions, pool state
//! - `errors`: the protocol's errors and their messages
//! - `frozen_params`: the compile-time parameters
//! - `peg`: peg weights and oracle source selection
//! - `vault`: collateralised debt positions
//! - `liquidation`: Dutch auctions of under-collateralised vaults
//! - `stability_pool`: fee reserve and buyback
//! - `circuit_breaker`: the pause that nothing can lift
//! - `kaspa_adapter`: Kaspa addresses and transaction identifiers
//! - `kaspa_tokens`: ENRK and kFIAT ledgers and the kFIAT cap
pub mod circuit_breaker;
mod clock;
pub mod decimal;
pub mod errors;
pub mod frozen_params;
pub mod holdings;
pub mod kaspa_adapter;
pub mod kaspa_tokens;
pub mod liquidation;
pub mod oracle_feeds;
pub mod peg;
pub mod stability_pool;
pub mod types;
pub mod vault;
pub mod vault_sums;

pub use circuit_breaker::{CircuitBreaker, CircuitBreakerState};
pub use errors::{IgraError, IgraResult};
pub use kaspa_adapter::{KaspaAddressValidator, KaspaTransactionBuilder};
pub use kaspa_tokens::{TokenLayer, TokenLedger, TokenSupplyStats, TokenType};
pub use liquidation::LiquidationManager;
pub use peg::{OracleManager, PegCalculator};
pub use stability_pool::StabilityPoolManager;
pub use types::{
    CollateralRatios, CircuitBreakerParams, FeeStructure, LiquidationAuction, LiquidationParams,
    OraclePrice, PegWeights, StabilityPool, Vault, VaultStatus,
};
pub use vault::VaultManager;

use vstd::prelude::*;

verus! {

/// Protocol version.
pub const ENRK_VERSION: &'static str = "1.0.0";

/// Initialises the protocol: checks that the frozen parameters are consistent.
/// It always succeeds, since they are.
pub fn initialize() -> (r: IgraResult<()>)
    ensures
        r is Ok,
{
    frozen_params::validate_all()
}

} // verus!
