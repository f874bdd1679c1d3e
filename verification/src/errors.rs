use vstd::prelude::*;

verus! {

/// Every way an operation of the market engine can fail.
#[derive(Clone, Copy, Debug, PartialEq, Eq, Structural)]
pub enum PoolOddsError {
    ProgramPaused,
    Unauthorized,
    InvalidFeeRate,
    InvalidMarketDuration,
    InsufficientBondAmount,
    InvalidParameter,
    TitleTooLong,
    DescriptionTooLong,
    InvalidEndTime,
    TooManyMarkets,
    MissingOracleData,
    MarketNotActive,
    InvalidPool,
    MathOverflow,
    DivisionByZero,
    InsufficientLiquidity,
    InsufficientLiquidityMinted,
    InsufficientShares,
    SlippageExceeded,
    PriceImpactTooHigh,
    CannotResolve,
    MissingOracleAccount,
    InvalidOracleAccount,
    InvalidOracleData,
    StalePriceData,
    MissingOutcome,
    MarketAlreadyResolved,
    NoWinningsToClaim,
    InvalidLiquidityAmount,
    InsufficientLPTokens,
    MarketExpired,
    InvalidTokenAccount,
    InvalidMint,
    TokenTransferFailed,
    MintFailed,
    BurnFailed,
}

impl PoolOddsError {
    /// The text that describes the error.
    pub open spec fn message_text(&self) -> Seq<char> {
        match self {
            PoolOddsError::ProgramPaused => "Program is currently paused"@,
            PoolOddsError::Unauthorized => "Unauthorized access"@,
            PoolOddsError::InvalidFeeRate => "Invalid fee rate"@,
            PoolOddsError::InvalidMarketDuration => "Invalid market duration"@,
            PoolOddsError::InsufficientBondAmount => "Insufficient bond amount"@,
            PoolOddsError::InvalidParameter => "Invalid parameter"@,
            PoolOddsError::TitleTooLong => "Title too long"@,
            PoolOddsError::DescriptionTooLong => "Description too long"@,
            PoolOddsError::InvalidEndTime => "Invalid end time"@,
            PoolOddsError::TooManyMarkets => "Too many markets created"@,
            PoolOddsError::MissingOracleData => "Missing oracle data"@,
            PoolOddsError::MarketNotActive => "Market not active"@,
            PoolOddsError::InvalidPool => "Invalid pool"@,
            PoolOddsError::MathOverflow => "Math overflow"@,
            PoolOddsError::DivisionByZero => "Division by zero"@,
            PoolOddsError::InsufficientLiquidity => "Insufficient liquidity"@,
            PoolOddsError::InsufficientLiquidityMinted => "Insufficient liquidity minted"@,
            PoolOddsError::InsufficientShares => "Insufficient shares"@,
            PoolOddsError::SlippageExceeded => "Slippage exceeded"@,
            PoolOddsError::PriceImpactTooHigh => "Price impact too high"@,
            PoolOddsError::CannotResolve => "Cannot resolve market"@,
            PoolOddsError::MissingOracleAccount => "Missing oracle account"@,
            PoolOddsError::InvalidOracleAccount => "Invalid oracle account"@,
            PoolOddsError::InvalidOracleData => "Invalid oracle data"@,
            PoolOddsError::StalePriceData => "Stale price data"@,
            PoolOddsError::MissingOutcome => "Missing outcome"@,
            PoolOddsError::MarketAlreadyResolved => "Market already resolved"@,
            PoolOddsError::NoWinningsToClaim => "No winnings to claim"@,
            PoolOddsError::InvalidLiquidityAmount => "Invalid liquidity amount"@,
            PoolOddsError::InsufficientLPTokens => "Insufficient LP tokens"@,
            PoolOddsError::MarketExpired => "Market expired"@,
            PoolOddsError::InvalidTokenAccount => "Invalid token account"@,
            PoolOddsError::InvalidMint => "Invalid mint"@,
            PoolOddsError::TokenTransferFailed => "Token transfer failed"@,
            PoolOddsError::MintFailed => "Mint operation failed"@,
            PoolOddsError::BurnFailed => "Burn operation failed"@,
        }
    }

    /// The text that describes the error.
    pub fn message(&self) -> (r: &'static str)
        ensures
            r@ == self.message_text(),
    {
        match self {
            PoolOddsError::ProgramPaused => "Program is currently paused",
            PoolOddsError::Unauthorized => "Unauthorized access",
            PoolOddsError::InvalidFeeRate => "Invalid fee rate",
            PoolOddsError::InvalidMarketDuration => "Invalid market duration",
            PoolOddsError::InsufficientBondAmount => "Insufficient bond amount",
            PoolOddsError::InvalidParameter => "Invalid parameter",
            PoolOddsError::TitleTooLong => "Title too long",
            PoolOddsError::DescriptionTooLong => "Description too long",
            PoolOddsError::InvalidEndTime => "Invalid end time",
            PoolOddsError::TooManyMarkets => "Too many markets created",
            PoolOddsError::MissingOracleData => "Missing oracle data",
            PoolOddsError::MarketNotActive => "Market not active",
            PoolOddsError::InvalidPool => "Invalid pool",
            PoolOddsError::MathOverflow => "Math overflow",
            PoolOddsError::DivisionByZero => "Division by zero",
            PoolOddsError::InsufficientLiquidity => "Insufficient liquidity",
            PoolOddsError::InsufficientLiquidityMinted => "Insufficient liquidity minted",
            PoolOddsError::InsufficientShares => "Insufficient shares",
            PoolOddsError::SlippageExceeded => "Slippage exceeded",
            PoolOddsError::PriceImpactTooHigh => "Price impact too high",
            PoolOddsError::CannotResolve => "Cannot resolve market",
            PoolOddsError::MissingOracleAccount => "Missing oracle account",
            PoolOddsError::InvalidOracleAccount => "Invalid oracle account",
            PoolOddsError::InvalidOracleData => "Invalid oracle data",
            PoolOddsError::StalePriceData => "Stale price data",
            PoolOddsError::MissingOutcome => "Missing outcome",
            PoolOddsError::MarketAlreadyResolved => "Market already resolved",
            PoolOddsError::NoWinningsToClaim => "No winnings to claim",
            PoolOddsError::InvalidLiquidityAmount => "Invalid liquidity amount",
            PoolOddsError::InsufficientLPTokens => "Insufficient LP tokens",
            PoolOddsError::MarketExpired => "Market expired",
            PoolOddsError::InvalidTokenAccount => "Invalid token account",
            PoolOddsError::InvalidMint => "Invalid mint",
            PoolOddsError::TokenTransferFailed => "Token transfer failed",
            PoolOddsError::MintFailed => "Mint operation failed",
            PoolOddsError::BurnFailed => "Burn operation failed",
        }
    }
}

} // verus!
