//! Failure taxonomy of the engine. Every error is a local, non-retriable
//! validation or invariant failure; no variant represents a transient
//! condition.
use vstd::prelude::*;

verus! {

/// Errors surfaced by the pricing, fee, and lifecycle core.
#[derive(Clone, Copy, Debug, PartialEq, Eq, Structural)]
pub enum AmmError {
    /// Any arithmetic fault: overflow, underflow, divide by zero, or a
    /// shift amount out of range.
    MathOverflow,
    /// A wide result does not fit the narrower target field.
    TypeCastFailed,
    /// A zero trade or claim amount where a positive one is required.
    AmountIsZero,
    /// Output fell below the caller-specified minimum.
    ExceededSlippage,
    /// Trade attempted after the curve graduated.
    PoolIsCompleted,
    /// Migration attempted before the curve graduated.
    PoolIsIncompleted,
    /// Input left unabsorbed after exhausting the configured curve.
    SwapAmountIsOverAThreshold,
    /// The curve holds too little liquidity for the requested move.
    NotEnoughLiquidity,
    /// The base reserve cannot cover the migration deposit.
    InsufficientLiquidityForMigration,
    /// The capped graduation recomputation failed; a validated
    /// configuration must make this unreachable.
    InvalidMigrationCalculation,
    /// A raw fee-type value outside the defined set, or a transition the
    /// state machine does not allow.
    InvalidFeeType,
    /// Setting the fee type the curve already has.
    FeeTypeAlreadySet,
    /// A raw cashback-tier value outside the defined set.
    InvalidCashbackTier,
    /// Claim attempted before the cooldown window elapsed.
    ClaimCooldownNotMet,
    /// Reclaim attempted on an account that is not yet inactive.
    AccountNotInactive,
    /// Claim attempted with an empty cashback balance.
    NoCashbackToClaim,
    /// Fee claim attempted with an empty accrued balance.
    NothingToClaim,
    /// Operation attempted in a lifecycle phase that does not permit it.
    NotPermitToDoThisAction,
    /// An external pool configuration that does not match what the
    /// migration requires.
    InvalidConfigAccount,
    /// A configuration parameter set that breaks a fee or reserve invariant.
    InvalidAmmConfig,
    /// A raw token-type value outside the defined set.
    InvalidTokenType,
    /// A base-token decimal count outside the supported range.
    InvalidTokenDecimals,
    /// Fee components that cannot fit under the gross fee rate.
    InvalidFeeBasisPoints,
    /// A creator fee rate above the allowed share of the trade.
    InvalidCreatorTradingFeePercentage,
    /// Token name empty or over the length limit.
    InvalidTokenName,
    /// Token symbol empty or over the length limit.
    InvalidTokenSymbol,
    /// Token URI empty or over the length limit.
    InvalidTokenUri,
}

} // verus!
