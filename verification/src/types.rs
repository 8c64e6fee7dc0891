//! Core data types of the protocol: the frozen parameter sets, vaults, auctions
//! and the stability pool's state.
use vstd::prelude::*;
use vstd::string::*;

verus! {

/// Weights of the peg formula, in percent. They must sum to 100.
#[derive(Debug, Clone, Copy, PartialEq, Eq, Structural)]
pub struct PegWeights {
    pub hashrate: u8,
    pub energy: u8,
    pub fees: u8,
    pub adoption: u8,
}

impl PegWeights {
    pub open spec fn total(&self) -> int {
        self.hashrate + self.energy + self.fees + self.adoption
    }

    pub open spec fn is_valid(&self) -> bool {
        self.total() == 100
    }

    /// The message `validate` reports for invalid weights.
    pub open spec fn error_message(&self) -> Seq<char> {
        "Peg weights must sum to 100"@
    }

    /// Accepts the weights exactly when they sum to 100.
    pub fn validate(&self) -> (r: Result<(), String>)
        ensures
            r is Ok <==> self.is_valid(),
            r matches Err(m) ==> m@ == self.error_message(),
    {
        if self.hashrate as u16 + self.energy as u16 + self.fees as u16 + self.adoption as u16
            != 100 {
            return Err(String::from_str("Peg weights must sum to 100"));
        }
        Ok(())
    }
}

impl Default for PegWeights {
    /// 40% hashrate, 30% energy, 20% fees, 10% adoption.
    fn default() -> (r: Self)
        ensures
            r == (PegWeights { hashrate: 40, energy: 30, fees: 20, adoption: 10 }),
    {
        PegWeights { hashrate: 40, energy: 30, fees: 20, adoption: 10 }
    }
}

/// Collateral ratio constraints, in percent: the minimum at mint (ICR) and the
/// liquidation trigger (MCR).
#[derive(Debug, Clone, Copy, PartialEq, Eq, Structural)]
pub struct CollateralRatios {
    pub icr_minimum: u16,
    pub mcr_trigger: u16,
}

impl CollateralRatios {
    pub open spec fn is_valid(&self) -> bool {
        self.icr_minimum > self.mcr_trigger && self.mcr_trigger >= 100
    }

    /// The message `validate` reports for invalid values.
    pub open spec fn error_message(&self) -> Seq<char> {
        if self.icr_minimum <= self.mcr_trigger {
            "ICR must be greater than MCR"@
        } else {
            "MCR must be at least 100%"@
        }
    }

    /// Accepts the ratios exactly when ICR > MCR >= 100.
    pub fn validate(&self) -> (r: Result<(), String>)
        ensures
            r is Ok <==> self.is_valid(),
            r matches Err(m) ==> m@ == self.error_message(),
    {
        if self.icr_minimum <= self.mcr_trigger {
            return Err(String::from_str("ICR must be greater than MCR"));
        }
        if self.mcr_trigger < 100 {
            return Err(String::from_str("MCR must be at least 100%"));
        }
        Ok(())
    }
}

impl Default for CollateralRatios {
    /// ICR 200%, MCR 150%.
    fn default() -> (r: Self)
        ensures
            r == (CollateralRatios { icr_minimum: 200, mcr_trigger: 150 }),
    {
        CollateralRatios { icr_minimum: 200, mcr_trigger: 150 }
    }
}

/// Dutch auction parameters: duration in minutes, start and end price in percent
/// of the market price.
#[derive(Debug, Clone, Copy, PartialEq, Eq, Structural)]
pub struct LiquidationParams {
    pub duration_minutes: u16,
    pub start_price: u8,
    pub end_price: u8,
}

impl LiquidationParams {
    pub open spec fn is_valid(&self) -> bool {
        &&& self.duration_minutes > 0
        &&& self.start_price > self.end_price
        &&& self.start_price <= 100
        &&& self.end_price > 0
    }

    /// The message `validate` reports for invalid values.
    pub open spec fn error_message(&self) -> Seq<char> {
        if self.duration_minutes == 0 {
            "Liquidation duration must be > 0"@
        } else if self.start_price <= self.end_price {
            "Start price must be greater than end price"@
        } else if self.start_price > 100 {
            "Start price cannot exceed 100%"@
        } else {
            "End price must be > 0"@
        }
    }

    /// Accepts the parameters exactly when the duration is positive and
    /// 100 >= start > end > 0; the first failing condition names the error.
    pub fn validate(&self) -> (r: Result<(), String>)
        ensures
            r is Ok <==> self.is_valid(),
            r matches Err(m) ==> m@ == self.error_message(),
    {
        if self.duration_minutes == 0 {
            return Err(String::from_str("Liquidation duration must be > 0"));
        }
        if self.start_price <= self.end_price {
            return Err(String::from_str("Start price must be greater than end price"));
        }
        if self.start_price > 100 {
            return Err(String::from_str("Start price cannot exceed 100%"));
        }
        if self.end_price == 0 {
            return Err(String::from_str("End price must be > 0"));
        }
        Ok(())
    }
}

impl Default for LiquidationParams {
    /// 120 minutes, from 100% down to 75%.
    fn default() -> (r: Self)
        ensures
            r == (LiquidationParams { duration_minutes: 120, start_price: 100, end_price: 75 }),
    {
        LiquidationParams { duration_minutes: 120, start_price: 100, end_price: 75 }
    }
}

/// Fees in basis points, and the split of collected fees between the stability
/// pool and the treasury, in percent.
#[derive(Debug, Clone, Copy, PartialEq, Eq, Structural)]
pub struct FeeStructure {
    pub mint_fee_bps: u16,
    pub liquidation_fee_bps: u16,
    pub redemption_fee_bps: u16,
    pub stability_pool_allocation: u8,
    pub treasury_allocation: u8,
}

impl FeeStructure {
    pub open spec fn is_valid(&self) -> bool {
        self.stability_pool_allocation + self.treasury_allocation == 100
            && self.mint_fee_bps <= 10000
    }

    /// The message `validate` reports for invalid values.
    pub open spec fn error_message(&self) -> Seq<char> {
        if self.stability_pool_allocation + self.treasury_allocation != 100 {
            "Fee allocations must sum to 100%"@
        } else {
            "Fee cannot exceed 100%"@
        }
    }

    /// Accepts the fees exactly when the allocations sum to 100 and the mint fee
    /// is at most 100%.
    pub fn validate(&self) -> (r: Result<(), String>)
        ensures
            r is Ok <==> self.is_valid(),
            r matches Err(m) ==> m@ == self.error_message(),
    {
        if self.stability_pool_allocation as u16 + self.treasury_allocation as u16 != 100 {
            return Err(String::from_str("Fee allocations must sum to 100%"));
        }
        if self.mint_fee_bps > 10000 {
            return Err(String::from_str("Fee cannot exceed 100%"));
        }
        Ok(())
    }
}

impl Default for FeeStructure {
    /// Mint 2%, liquidation 4%, redemption 1%; 80% of fees to the pool, 20% to
    /// the treasury.
    fn default() -> (r: Self)
        ensures
            r == (FeeStructure {
                mint_fee_bps: 200,
                liquidation_fee_bps: 400,
                redemption_fee_bps: 100,
                stability_pool_allocation: 80,
                treasury_allocation: 20,
            }),
    {
        FeeStructure {
            mint_fee_bps: 200,
            liquidation_fee_bps: 400,
            redemption_fee_bps: 100,
            stability_pool_allocation: 80,
            treasury_allocation: 20,
        }
    }
}

/// Circuit breaker thresholds: peg deviation in percent, oracle downtime in
/// minutes.
#[derive(Debug, Clone, Copy, PartialEq, Eq, Structural)]
pub struct CircuitBreakerParams {
    pub peg_deviation_threshold: u8,
    pub oracle_downtime_threshold_minutes: u16,
}

impl CircuitBreakerParams {
    pub open spec fn is_valid(&self) -> bool {
        0 < self.peg_deviation_threshold <= 50 && self.oracle_downtime_threshold_minutes > 0
    }

    /// Accepts the thresholds exactly when 0 < deviation <= 50 and the downtime
    /// The message `validate` reports for invalid values.
    pub open spec fn error_message(&self) -> Seq<char> {
        if self.peg_deviation_threshold == 0 || self.peg_deviation_threshold > 50 {
            "Peg deviation threshold must be 0 < x <= 50%"@
        } else {
            "Oracle downtime threshold must be > 0"@
        }
    }

    /// threshold is positive.
    pub fn validate(&self) -> (r: Result<(), String>)
        ensures
            r is Ok <==> self.is_valid(),
            r matches Err(m) ==> m@ == self.error_message(),
    {
        if self.peg_deviation_threshold == 0 || self.peg_deviation_threshold > 50 {
            return Err(String::from_str("Peg deviation threshold must be 0 < x <= 50%"));
        }
        if self.oracle_downtime_threshold_minutes == 0 {
            return Err(String::from_str("Oracle downtime threshold must be > 0"));
        }
        Ok(())
    }
}

impl Default for CircuitBreakerParams {
    /// 10% peg deviation, 360 minutes of oracle downtime.
    fn default() -> (r: Self)
        ensures
            r == (CircuitBreakerParams {
                peg_deviation_threshold: 10,
                oracle_downtime_threshold_minutes: 360,
            }),
    {
        CircuitBreakerParams { peg_deviation_threshold: 10, oracle_downtime_threshold_minutes: 360 }
    }
}

/// Lifecycle of a vault.
#[derive(Debug, Clone, Copy, PartialEq, Eq, Structural)]
pub enum VaultStatus {
    Active,
    Liquidating,
    Closed,
}

impl VaultStatus {
    /// The variant's name, as `Debug` prints it.
    pub fn name(&self) -> (s: String)
        ensures
            s@ == self.name_spec(),
    {
        match self {
            VaultStatus::Active => String::from_str("Active"),
            VaultStatus::Liquidating => String::from_str("Liquidating"),
            VaultStatus::Closed => String::from_str("Closed"),
        }
    }

    pub open spec fn name_spec(&self) -> Seq<char> {
        match self {
            VaultStatus::Active => "Active"@,
            VaultStatus::Liquidating => "Liquidating"@,
            VaultStatus::Closed => "Closed"@,
        }
    }
}

/// An over-collateralised debt position holding KAS and owing ENRK and kFIAT.
/// Amounts are whole token units.
#[derive(Debug, PartialEq, Eq)]
pub struct Vault {
    pub vault_id: u64,
    pub owner: String,
    pub collateral_kas: i128,
    pub debt_enrk: i128,
    pub debt_kfiat: i128,
    pub status: VaultStatus,
    pub created_at_seconds: u64,
    pub last_updated_seconds: u64,
}

impl Clone for Vault {
    fn clone(&self) -> (r: Self)
        ensures
            r == *self,
    {
        Vault {
            vault_id: self.vault_id,
            owner: self.owner.clone(),
            collateral_kas: self.collateral_kas,
            debt_enrk: self.debt_enrk,
            debt_kfiat: self.debt_kfiat,
            status: self.status,
            created_at_seconds: self.created_at_seconds,
            last_updated_seconds: self.last_updated_seconds,
        }
    }
}

impl Vault {
    /// Debt in both tranches.
    pub open spec fn total_debt(&self) -> int {
        self.debt_enrk + self.debt_kfiat
    }
}

/// A Dutch auction of a vault's collateral.
#[derive(Debug, Clone, Copy, PartialEq, Eq, Structural)]
pub struct LiquidationAuction {
    pub auction_id: u64,
    pub vault_id: u64,
    pub collateral_kas: i128,
    pub debt_to_cover: i128,
    pub started_at_seconds: u64,
    pub duration_minutes: u16,
}

impl LiquidationAuction {
    /// Whole minutes elapsed since the auction started.
    pub open spec fn elapsed_minutes(&self, now_seconds: u64) -> int {
        (now_seconds - self.started_at_seconds) / 60
    }

    pub open spec fn expired_at(&self, now_seconds: u64) -> bool {
        self.elapsed_minutes(now_seconds) >= self.duration_minutes
    }

    /// An auction is expired once its whole elapsed minutes reach its duration.
    /// The clock must not read earlier than the auction's start.
    pub fn is_expired(&self, now_seconds: u64) -> (r: bool)
        requires
            now_seconds >= self.started_at_seconds,
        ensures
            r == self.expired_at(now_seconds),
    {
        ((now_seconds - self.started_at_seconds) / 60) >= self.duration_minutes as u64
    }
}

/// State of the stability pool.
#[derive(Debug, Clone, Copy, PartialEq, Eq, Structural)]
pub struct StabilityPool {
    pub enrk_balance: i128,
    pub cumulative_fees_collected: i128,
    pub last_buyback_seconds: u64,
}

/// A price reported by an oracle source. The price is a binary64 value, carried
/// here as its bit pattern.
#[derive(Debug, PartialEq, Eq)]
pub struct OraclePrice {
    pub value_bits: u64,
    pub timestamp_seconds: u64,
    pub source: String,
}

impl Clone for OraclePrice {
    fn clone(&self) -> (r: Self)
        ensures
            r == *self,
    {
        OraclePrice {
            value_bits: self.value_bits,
            timestamp_seconds: self.timestamp_seconds,
            source: self.source.clone(),
        }
    }
}

/// Snapshot of a paused or active protocol.
#[derive(Debug, PartialEq, Eq)]
pub struct CircuitBreakerState {
    pub is_paused: bool,
    pub pause_triggered_at_seconds: u64,
    pub pause_reason: String,
}

impl Clone for CircuitBreakerState {
    fn clone(&self) -> (r: Self)
        ensures
            r == *self,
    {
        CircuitBreakerState {
            is_paused: self.is_paused,
            pause_triggered_at_seconds: self.pause_triggered_at_seconds,
            pause_reason: self.pause_reason.clone(),
        }
    }
}

} // verus!
