use vstd::prelude::*;
use crate::constants::MAX_FEE_RATE;
use crate::errors::PoolOddsError;
use crate::state::address::Address;
use crate::state::global_state::GlobalState;

verus! {

/// The protocol configuration to start with.
#[derive(Clone, Copy, Debug)]
pub struct InitializeParams {
    pub protocol_fee_rate: u16,
    pub default_market_fee_rate: u16,
    pub min_market_duration: i64,
    pub max_market_duration: i64,
    pub min_bond_amount: u64,
    pub max_markets_per_creator: u32,
}

/// The records that initialization reads and writes.
#[derive(Clone, Copy, Debug)]
pub struct Initialize {
    pub global_state: GlobalState,
    pub authority: Address,
    pub fee_recipient: Address,
}

impl InitializeParams {
    /// The first fault of a configuration, if it has one: a fee rate over
    /// `MAX_FEE_RATE`, duration bounds that are not positive and increasing, a
    /// zero bond, or a zero market limit.
    pub open spec fn fault(&self) -> Option<PoolOddsError> {
        if self.protocol_fee_rate > MAX_FEE_RATE || self.default_market_fee_rate > MAX_FEE_RATE {
            Some(PoolOddsError::InvalidFeeRate)
        } else if !(0 < self.min_market_duration < self.max_market_duration) {
            Some(PoolOddsError::InvalidMarketDuration)
        } else if self.min_bond_amount == 0 {
            Some(PoolOddsError::InsufficientBondAmount)
        } else if self.max_markets_per_creator == 0 {
            Some(PoolOddsError::InvalidParameter)
        } else {
            None
        }
    }
}

impl Initialize {
    /// The configuration record that initialization writes.
    pub open spec fn initial_state(&self, params: InitializeParams) -> GlobalState {
        GlobalState {
            authority: self.authority,
            fee_recipient: self.fee_recipient,
            protocol_fee_rate: params.protocol_fee_rate,
            default_market_fee_rate: params.default_market_fee_rate,
            min_market_duration: params.min_market_duration,
            max_market_duration: params.max_market_duration,
            min_bond_amount: params.min_bond_amount,
            max_markets_per_creator: params.max_markets_per_creator,
            paused: false,
            total_markets: 0,
            total_volume: 0,
            total_fees: 0,
        }
    }
}

/// Writes the protocol configuration, unpaused and with all totals at zero,
/// if it is free of faults; a faulty one is rejected and nothing changes.
pub fn handler(ctx: &mut Initialize, params: InitializeParams) -> (r: Result<(), PoolOddsError>)
    ensures
        match params.fault() {
            Some(e) => r == Err::<(), PoolOddsError>(e) && *final(ctx) == *old(ctx),
            None => r == Ok::<(), PoolOddsError>(()) && *final(ctx) == (
            Initialize { global_state: old(ctx).initial_state(params), ..*old(ctx) }),
        },
{
    if params.protocol_fee_rate > MAX_FEE_RATE {
        return Err(PoolOddsError::InvalidFeeRate);
    }
    if params.default_market_fee_rate > MAX_FEE_RATE {
        return Err(PoolOddsError::InvalidFeeRate);
    }
    if !(params.min_market_duration > 0 && params.min_market_duration
        < params.max_market_duration) {
        return Err(PoolOddsError::InvalidMarketDuration);
    }
    if params.min_bond_amount == 0 {
        return Err(PoolOddsError::InsufficientBondAmount);
    }
    if params.max_markets_per_creator == 0 {
        return Err(PoolOddsError::InvalidParameter);
    }
    ctx.global_state.authority = ctx.authority;
    ctx.global_state.fee_recipient = ctx.fee_recipient;
    ctx.global_state.protocol_fee_rate = params.protocol_fee_rate;
    ctx.global_state.default_market_fee_rate = params.default_market_fee_rate;
    ctx.global_state.min_market_duration = params.min_market_duration;
    ctx.global_state.max_market_duration = params.max_market_duration;
    ctx.global_state.min_bond_amount = params.min_bond_amount;
    ctx.global_state.max_markets_per_creator = params.max_markets_per_creator;
    ctx.global_state.paused = false;
    ctx.global_state.total_markets = 0;
    ctx.global_state.total_volume = 0;
    ctx.global_state.total_fees = 0;
    Ok(())
}

} // verus!
