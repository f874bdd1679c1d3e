use vstd::prelude::*;

verus! {

/// Default market fee, in basis points (0.3%).
pub const DEFAULT_FEE_RATE: u16 = 30;

/// Protocol fee, in basis points (0.1%).
pub const PROTOCOL_FEE_RATE: u16 = 10;

/// Highest fee rate a configuration may carry, in basis points (10%).
pub const MAX_FEE_RATE: u16 = 1000;

/// Shortest market duration, in seconds (one hour).
pub const MIN_MARKET_DURATION: i64 = 3600;

/// Longest market duration, in seconds (one year).
pub const MAX_MARKET_DURATION: i64 = 31_536_000;

/// Smallest creator bond.
pub const MIN_BOND_AMOUNT: u64 = 100_000_000;

/// Most markets one creator may open.
pub const MAX_MARKETS_PER_CREATOR: u32 = 100;

/// Smallest trade, in base units.
pub const MIN_TRADE_AMOUNT: u64 = 1_000;

/// Highest price impact a trade may have, in basis points (10%).
pub const MAX_PRICE_IMPACT: u16 = 1000;

/// Highest slippage tolerance, in basis points (50%).
pub const MAX_SLIPPAGE: u16 = 5000;

/// Smallest liquidity deposit, in base units.
pub const MIN_LIQUIDITY: u64 = 1_000_000;

/// Even odds between the two outcomes (0.5), in six-decimal fixed point.
pub const INITIAL_PRICE: u64 = 500_000;

/// Oldest acceptable oracle price, in seconds.
pub const MAX_PRICE_AGE: i64 = 300;

/// One whole unit of price in six-decimal fixed point.
pub const PRICE_PRECISION: u64 = 1_000_000;

/// Longest market title, in bytes.
pub const MAX_TITLE_LENGTH: usize = 64;

/// Longest market description, in bytes.
pub const MAX_DESCRIPTION_LENGTH: usize = 128;

/// Basis points in one whole.
pub const BASIS_POINTS: u64 = 10_000;

/// Percent in one whole.
pub const PERCENTAGE: u64 = 100;

pub const CATEGORY_CRYPTO: u8 = 0;

pub const CATEGORY_SPORTS: u8 = 1;

pub const CATEGORY_POLITICS: u8 = 2;

pub const CATEGORY_WEATHER: u8 = 3;

pub const CATEGORY_OTHER: u8 = 4;

} // verus!
