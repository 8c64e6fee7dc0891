//! Errors of the protocol. No error condition can be overridden.
use vstd::prelude::*;
use vstd::string::*;
use crate::decimal::{decimal, push_decimal};

verus! {

/// Every error the protocol can report.
#[derive(Debug, Clone, PartialEq, Eq)]
pub enum IgraError {
    // Vault errors
    VaultNotFound(u64),
    VaultAlreadyExists(u64),
    InsufficientCollateral { required_icr: u16, current_icr: u16 },
    VaultNotUnderCollateralized { icr: u16, mcr: u16 },
    KFIATCapExceeded { current_kfiat: u64, max_kfiat: u64 },
    VaultZeroDebt,
    InvalidCollateralAmount,
    InvalidDebtAmount,
    InsufficientRemainingCollateral,
    InvalidVaultStatus { status: String },
    // Liquidation errors
    AuctionNotFound(u64),
    AuctionAlreadyExists(u64),
    AuctionExpired,
    AuctionStillActive,
    BidTooLow { bid: u64, required: u64, price: u8 },
    BidExceedsCollateral,
    NoBiddersForAuction,
    VaultHealthy { icr: u16, mcr: u16 },
    // Peg and oracle errors
    PegPriceUnavailable,
    OracleDowntime { minutes: u16, threshold: u16 },
    OraclePriceDeviation { deviation: u8 },
    InvalidOraclePrice(String),
    PegCalculationFailed(String),
    InvalidPegComponent(String),
    // Circuit breaker errors
    ProtocolPaused { reason: String, triggered_at_seconds: u64 },
    CircuitBreakerTriggered { deviation: u8, threshold: u8 },
    // Redemption errors
    InsufficientENRK,
    RedemptionWouldLiquidateHealthy,
    RedemptionAmountTooLarge { max: u64 },
    CannotRedeemKFIAT,
    // Fee and stability pool errors
    FeeCalculationFailed(String),
    StabilityPoolEmpty,
    PriceAbovePeg,
    BuybackExceedsPoolBalance,
    // Permission and access errors
    Unauthorized(String),
    InvalidAddress(String),
    OnlyVaultOwner,
    // Parameter validation errors
    InvalidParameters(String),
    ParameterImmutable { parameter: String },
    ConfigurationInvalid(String),
    // Transaction and state errors
    TransactionFailed(String),
    StateInconsistency(String),
    InsufficientBalance { required: u64, available: u64 },
    CalculationOverflow(String),
    DivisionByZero { operation: String },
    // Generic errors
    OperationFailed(String),
    Unknown(String),
}

/// Result type of the protocol's operations.
pub type IgraResult<T> = Result<T, IgraError>;

/// `r` failed with `InvalidParameters` carrying the message `msg`.
pub open spec fn invalid_parameters<T>(r: IgraResult<T>, msg: Seq<char>) -> bool {
    r matches Err(IgraError::InvalidParameters(m)) && m@ == msg
}

/// `r` failed with `InvalidAddress` carrying the message `msg`.
pub open spec fn invalid_address<T>(r: IgraResult<T>, msg: Seq<char>) -> bool {
    r matches Err(IgraError::InvalidAddress(m)) && m@ == msg
}

/// `r` failed with `StateInconsistency` carrying the message `msg`.
pub open spec fn state_inconsistency<T>(r: IgraResult<T>, msg: Seq<char>) -> bool {
    r matches Err(IgraError::StateInconsistency(m)) && m@ == msg
}

/// `r` failed with `CalculationOverflow` carrying the message `msg`.
pub open spec fn calculation_overflow<T>(r: IgraResult<T>, msg: Seq<char>) -> bool {
    r matches Err(IgraError::CalculationOverflow(m)) && m@ == msg
}

impl IgraError {
    /// The human-readable message of the error.
    pub open spec fn message(&self) -> Seq<char> {
        match self {
            IgraError::VaultNotFound(f0) => "Vault not found: "@ + decimal(f0 as nat),
            IgraError::VaultAlreadyExists(f0) => "Vault already exists: "@ + decimal(f0 as nat),
            IgraError::InsufficientCollateral { required_icr, current_icr } => "Insufficient collateral. Required ICR: "@ + decimal(required_icr as nat) + "%, current: "@ + decimal(current_icr as nat) + "%"@,
            IgraError::VaultNotUnderCollateralized { icr, mcr } => "Vault is not under-collateralized (ICR: "@ + decimal(icr as nat) + "% > MCR: "@ + decimal(mcr as nat) + "%)"@,
            IgraError::KFIATCapExceeded { current_kfiat, max_kfiat } => "Cannot mint more than kFIAT cap. Current: "@ + decimal(current_kfiat as nat) + "%, Max: "@ + decimal(max_kfiat as nat) + "%"@,
            IgraError::VaultZeroDebt => "Vault has zero debt"@,
            IgraError::InvalidCollateralAmount => "Invalid collateral amount"@,
            IgraError::InvalidDebtAmount => "Invalid debt amount"@,
            IgraError::InsufficientRemainingCollateral => "Cannot withdraw collateral: would leave vault under MCR"@,
            IgraError::InvalidVaultStatus { status } => "Vault status is "@ + status@ + ", cannot perform operation"@,
            IgraError::AuctionNotFound(f0) => "Auction not found: "@ + decimal(f0 as nat),
            IgraError::AuctionAlreadyExists(f0) => "Auction already exists for vault: "@ + decimal(f0 as nat),
            IgraError::AuctionExpired => "Auction has expired"@,
            IgraError::AuctionStillActive => "Auction is still active (not expired)"@,
            IgraError::BidTooLow { bid, required, price } => "Bid amount "@ + decimal(bid as nat) + " is less than required "@ + decimal(required as nat) + " at current price "@ + decimal(price as nat) + "%"@,
            IgraError::BidExceedsCollateral => "Bid exceeds available collateral"@,
            IgraError::NoBiddersForAuction => "No bidders for auction"@,
            IgraError::VaultHealthy { icr, mcr } => "Cannot liquidate: vault is healthy (ICR: "@ + decimal(icr as nat) + "% >= MCR: "@ + decimal(mcr as nat) + "%)"@,
            IgraError::PegPriceUnavailable => "Peg price not available"@,
            IgraError::OracleDowntime { minutes, threshold } => "Oracle feed offline for "@ + decimal(minutes as nat) + " minutes (threshold: "@ + decimal(threshold as nat) + ")"@,
            IgraError::OraclePriceDeviation { deviation } => "Oracle price deviation exceeds "@ + decimal(deviation as nat) + "% threshold"@,
            IgraError::InvalidOraclePrice(f0) => "Invalid oracle price: "@ + f0@,
            IgraError::PegCalculationFailed(f0) => "Cannot calculate peg: "@ + f0@,
            IgraError::InvalidPegComponent(f0) => "Peg index component invalid: "@ + f0@,
            IgraError::ProtocolPaused { reason, triggered_at_seconds } => "Protocol is paused: "@ + reason@ + ". Pause triggered at: "@ + decimal(triggered_at_seconds as nat),
            IgraError::CircuitBreakerTriggered { deviation, threshold } => "Peg deviation "@ + decimal(deviation as nat) + "% exceeds circuit breaker threshold "@ + decimal(threshold as nat) + "%"@,
            IgraError::InsufficientENRK => "Insufficient ENRK for redemption"@,
            IgraError::RedemptionWouldLiquidateHealthy => "Redemption would break systemically sound vaults"@,
            IgraError::RedemptionAmountTooLarge { max } => "Redemption amount exceeds "@ + decimal(max as nat),
            IgraError::CannotRedeemKFIAT => "Cannot redeem kFIAT: only ENRK can be redeemed"@,
            IgraError::FeeCalculationFailed(f0) => "Fee calculation failed: "@ + f0@,
            IgraError::StabilityPoolEmpty => "Stability pool balance insufficient"@,
            IgraError::PriceAbovePeg => "Cannot trigger buyback: ENRK price still above peg"@,
            IgraError::BuybackExceedsPoolBalance => "Buyback would exceed stability pool balance"@,
            IgraError::Unauthorized(f0) => "Unauthorized: "@ + f0@,
            IgraError::InvalidAddress(f0) => "Invalid address: "@ + f0@,
            IgraError::OnlyVaultOwner => "Only vault owner can perform this action"@,
            IgraError::InvalidParameters(f0) => "Invalid parameters: "@ + f0@,
            IgraError::ParameterImmutable { parameter } => "Parameter immutable: cannot modify "@ + parameter@ + " after deployment"@,
            IgraError::ConfigurationInvalid(f0) => "Configuration validation failed: "@ + f0@,
            IgraError::TransactionFailed(f0) => "Transaction failed: "@ + f0@,
            IgraError::StateInconsistency(f0) => "State inconsistency detected: "@ + f0@,
            IgraError::InsufficientBalance { required, available } => "Insufficient balance: required "@ + decimal(required as nat) + ", available "@ + decimal(available as nat),
            IgraError::CalculationOverflow(f0) => "Overflow in calculation: "@ + f0@,
            IgraError::DivisionByZero { operation } => "Division by zero in "@ + operation@,
            IgraError::OperationFailed(f0) => "Operation failed: "@ + f0@,
            IgraError::Unknown(f0) => "Unknown error: "@ + f0@,
        }
    }

    /// Renders the error's message.
    pub fn to_string(&self) -> (s: String)
        ensures
            s@ == self.message(),
    {
        match self {
            IgraError::VaultNotFound(f0) => {
                let mut s = String::new();
                s.append("Vault not found: ");
                push_decimal(&mut s, *f0 as u128);
                s
            },
            IgraError::VaultAlreadyExists(f0) => {
                let mut s = String::new();
                s.append("Vault already exists: ");
                push_decimal(&mut s, *f0 as u128);
                s
            },
            IgraError::InsufficientCollateral { required_icr, current_icr } => {
                let mut s = String::new();
                s.append("Insufficient collateral. Required ICR: ");
                push_decimal(&mut s, *required_icr as u128);
                s.append("%, current: ");
                push_decimal(&mut s, *current_icr as u128);
                s.append("%");
                s
            },
            IgraError::VaultNotUnderCollateralized { icr, mcr } => {
                let mut s = String::new();
                s.append("Vault is not under-collateralized (ICR: ");
                push_decimal(&mut s, *icr as u128);
                s.append("% > MCR: ");
                push_decimal(&mut s, *mcr as u128);
                s.append("%)");
                s
            },
            IgraError::KFIATCapExceeded { current_kfiat, max_kfiat } => {
                let mut s = String::new();
                s.append("Cannot mint more than kFIAT cap. Current: ");
                push_decimal(&mut s, *current_kfiat as u128);
                s.append("%, Max: ");
                push_decimal(&mut s, *max_kfiat as u128);
                s.append("%");
                s
            },
            IgraError::VaultZeroDebt => {
                let mut s = String::new();
                s.append("Vault has zero debt");
                s
            },
            IgraError::InvalidCollateralAmount => {
                let mut s = String::new();
                s.append("Invalid collateral amount");
                s
            },
            IgraError::InvalidDebtAmount => {
                let mut s = String::new();
                s.append("Invalid debt amount");
                s
            },
            IgraError::InsufficientRemainingCollateral => {
                let mut s = String::new();
                s.append("Cannot withdraw collateral: would leave vault under MCR");
                s
            },
            IgraError::InvalidVaultStatus { status } => {
                let mut s = String::new();
                s.append("Vault status is ");
                s.append(status.as_str());
                s.append(", cannot perform operation");
                s
            },
            IgraError::AuctionNotFound(f0) => {
                let mut s = String::new();
                s.append("Auction not found: ");
                push_decimal(&mut s, *f0 as u128);
                s
            },
            IgraError::AuctionAlreadyExists(f0) => {
                let mut s = String::new();
                s.append("Auction already exists for vault: ");
                push_decimal(&mut s, *f0 as u128);
                s
            },
            IgraError::AuctionExpired => {
                let mut s = String::new();
                s.append("Auction has expired");
                s
            },
            IgraError::AuctionStillActive => {
                let mut s = String::new();
                s.append("Auction is still active (not expired)");
                s
            },
            IgraError::BidTooLow { bid, required, price } => {
                let mut s = String::new();
                s.append("Bid amount ");
                push_decimal(&mut s, *bid as u128);
                s.append(" is less than required ");
                push_decimal(&mut s, *required as u128);
                s.append(" at current price ");
                push_decimal(&mut s, *price as u128);
                s.append("%");
                s
            },
            IgraError::BidExceedsCollateral => {
                let mut s = String::new();
                s.append("Bid exceeds available collateral");
                s
            },
            IgraError::NoBiddersForAuction => {
                let mut s = String::new();
                s.append("No bidders for auction");
                s
            },
            IgraError::VaultHealthy { icr, mcr } => {
                let mut s = String::new();
                s.append("Cannot liquidate: vault is healthy (ICR: ");
                push_decimal(&mut s, *icr as u128);
                s.append("% >= MCR: ");
                push_decimal(&mut s, *mcr as u128);
                s.append("%)");
                s
            },
            IgraError::PegPriceUnavailable => {
                let mut s = String::new();
                s.append("Peg price not available");
                s
            },
            IgraError::OracleDowntime { minutes, threshold } => {
                let mut s = String::new();
                s.append("Oracle feed offline for ");
                push_decimal(&mut s, *minutes as u128);
                s.append(" minutes (threshold: ");
                push_decimal(&mut s, *threshold as u128);
                s.append(")");
                s
            },
            IgraError::OraclePriceDeviation { deviation } => {
                let mut s = String::new();
                s.append("Oracle price deviation exceeds ");
                push_decimal(&mut s, *deviation as u128);
                s.append("% threshold");
                s
            },
            IgraError::InvalidOraclePrice(f0) => {
                let mut s = String::new();
                s.append("Invalid oracle price: ");
                s.append(f0.as_str());
                s
            },
            IgraError::PegCalculationFailed(f0) => {
                let mut s = String::new();
                s.append("Cannot calculate peg: ");
                s.append(f0.as_str());
                s
            },
            IgraError::InvalidPegComponent(f0) => {
                let mut s = String::new();
                s.append("Peg index component invalid: ");
                s.append(f0.as_str());
                s
            },
            IgraError::ProtocolPaused { reason, triggered_at_seconds } => {
                let mut s = String::new();
                s.append("Protocol is paused: ");
                s.append(reason.as_str());
                s.append(". Pause triggered at: ");
                push_decimal(&mut s, *triggered_at_seconds as u128);
                s
            },
            IgraError::CircuitBreakerTriggered { deviation, threshold } => {
                let mut s = String::new();
                s.append("Peg deviation ");
                push_decimal(&mut s, *deviation as u128);
                s.append("% exceeds circuit breaker threshold ");
                push_decimal(&mut s, *threshold as u128);
                s.append("%");
                s
            },
            IgraError::InsufficientENRK => {
                let mut s = String::new();
                s.append("Insufficient ENRK for redemption");
                s
            },
            IgraError::RedemptionWouldLiquidateHealthy => {
                let mut s = String::new();
                s.append("Redemption would break systemically sound vaults");
                s
            },
            IgraError::RedemptionAmountTooLarge { max } => {
                let mut s = String::new();
                s.append("Redemption amount exceeds ");
                push_decimal(&mut s, *max as u128);
                s
            },
            IgraError::CannotRedeemKFIAT => {
                let mut s = String::new();
                s.append("Cannot redeem kFIAT: only ENRK can be redeemed");
                s
            },
            IgraError::FeeCalculationFailed(f0) => {
                let mut s = String::new();
                s.append("Fee calculation failed: ");
                s.append(f0.as_str());
                s
            },
            IgraError::StabilityPoolEmpty => {
                let mut s = String::new();
                s.append("Stability pool balance insufficient");
                s
            },
            IgraError::PriceAbovePeg => {
                let mut s = String::new();
                s.append("Cannot trigger buyback: ENRK price still above peg");
                s
            },
            IgraError::BuybackExceedsPoolBalance => {
                let mut s = String::new();
                s.append("Buyback would exceed stability pool balance");
                s
            },
            IgraError::Unauthorized(f0) => {
                let mut s = String::new();
                s.append("Unauthorized: ");
                s.append(f0.as_str());
                s
            },
            IgraError::InvalidAddress(f0) => {
                let mut s = String::new();
                s.append("Invalid address: ");
                s.append(f0.as_str());
                s
            },
            IgraError::OnlyVaultOwner => {
                let mut s = String::new();
                s.append("Only vault owner can perform this action");
                s
            },
            IgraError::InvalidParameters(f0) => {
                let mut s = String::new();
                s.append("Invalid parameters: ");
                s.append(f0.as_str());
                s
            },
            IgraError::ParameterImmutable { parameter } => {
                let mut s = String::new();
                s.append("Parameter immutable: cannot modify ");
                s.append(parameter.as_str());
                s.append(" after deployment");
                s
            },
            IgraError::ConfigurationInvalid(f0) => {
                let mut s = String::new();
                s.append("Configuration validation failed: ");
                s.append(f0.as_str());
                s
            },
            IgraError::TransactionFailed(f0) => {
                let mut s = String::new();
                s.append("Transaction failed: ");
                s.append(f0.as_str());
                s
            },
            IgraError::StateInconsistency(f0) => {
                let mut s = String::new();
                s.append("State inconsistency detected: ");
                s.append(f0.as_str());
                s
            },
            IgraError::InsufficientBalance { required, available } => {
                let mut s = String::new();
                s.append("Insufficient balance: required ");
                push_decimal(&mut s, *required as u128);
                s.append(", available ");
                push_decimal(&mut s, *available as u128);
                s
            },
            IgraError::CalculationOverflow(f0) => {
                let mut s = String::new();
                s.append("Overflow in calculation: ");
                s.append(f0.as_str());
                s
            },
            IgraError::DivisionByZero { operation } => {
                let mut s = String::new();
                s.append("Division by zero in ");
                s.append(operation.as_str());
                s
            },
            IgraError::OperationFailed(f0) => {
                let mut s = String::new();
                s.append("Operation failed: ");
                s.append(f0.as_str());
                s
            },
            IgraError::Unknown(f0) => {
                let mut s = String::new();
                s.append("Unknown error: ");
                s.append(f0.as_str());
                s
            },
        }
    }
}

} // verus!
