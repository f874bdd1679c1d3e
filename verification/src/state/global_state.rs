use vstd::prelude::*;
use crate::errors::PoolOddsError;
use crate::state::address::Address;

verus! {

/// Protocol-wide configuration and totals.
#[derive(Clone, Copy, Debug)]
pub struct GlobalState {
    /// Program authority
    pub authority: Address,
    /// Protocol fee recipient
    pub fee_recipient: Address,
    /// Protocol fee rate (basis points)
    pub protocol_fee_rate: u16,
    /// Default market fee rate (basis points)
    pub default_market_fee_rate: u16,
    /// Minimum market duration in seconds
    pub min_market_duration: i64,
    /// Maximum market duration in seconds
    pub max_market_duration: i64,
    /// Minimum bond amount for market creation
    pub min_bond_amount: u64,
    /// Maximum number of markets per creator
    pub max_markets_per_creator: u32,
    /// Program paused state
    pub paused: bool,
    /// Total number of markets created
    pub total_markets: u64,
    /// Total volume across all markets
    pub total_volume: u64,
    /// Total fees collected
    pub total_fees: u64,
}

impl GlobalState {
    pub fn is_paused(&self) -> (r: bool)
        ensures
            r == self.paused,
    {
        self.paused
    }

    /// Accepts a duration within the configured bounds, both included.
    pub fn validate_market_duration(&self, duration: i64) -> (r: Result<(), PoolOddsError>)
        ensures
            self.min_market_duration <= duration <= self.max_market_duration ==> r == Ok::<
                (),
                PoolOddsError,
            >(()),
            !(self.min_market_duration <= duration <= self.max_market_duration) ==> r == Err::<
                (),
                PoolOddsError,
            >(PoolOddsError::InvalidMarketDuration),
    {
        if duration >= self.min_market_duration && duration <= self.max_market_duration {
            Ok(())
        } else {
            Err(PoolOddsError::InvalidMarketDuration)
        }
    }

    /// Accepts a bond of at least the configured minimum.
    pub fn validate_bond_amount(&self, amount: u64) -> (r: Result<(), PoolOddsError>)
        ensures
            amount >= self.min_bond_amount ==> r == Ok::<(), PoolOddsError>(()),
            amount < self.min_bond_amount ==> r == Err::<(), PoolOddsError>(
                PoolOddsError::InsufficientBondAmount,
            ),
    {
        if amount >= self.min_bond_amount {
            Ok(())
        } else {
            Err(PoolOddsError::InsufficientBondAmount)
        }
    }
}

} // verus!
