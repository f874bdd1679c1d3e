use vstd::prelude::*;
use crate::errors::PoolOddsError;
use crate::state::address::Address;
use crate::state::market::{Market, MarketOutcome};
use crate::state::pool::{price_of, Pool};

verus! {

/// What the creator of the pools hands in.
#[derive(Clone, Copy, Debug)]
pub struct CreatePoolsParams {
    pub initial_liquidity: u64,
}

/// The records that pool creation reads and writes.
#[derive(Clone, Copy, Debug)]
pub struct CreatePools {
    pub market: Market,
    /// Address of the market record
    pub market_key: Address,
    pub yes_pool: Pool,
    /// Address of the YES pool record
    pub yes_pool_key: Address,
    pub no_pool: Pool,
    /// Address of the NO pool record
    pub no_pool_key: Address,
    pub yes_base_vault: Address,
    pub yes_share_vault: Address,
    pub no_base_vault: Address,
    pub no_share_vault: Address,
    pub yes_lp_mint: Address,
    pub no_lp_mint: Address,
    pub creator: Address,
    pub yes_pool_bump: u8,
    pub no_pool_bump: u8,
}

impl CreatePools {
    /// The empty pool of one outcome, as pool creation writes it: without
    /// reserves or claims, and at the price that a pool without shares has,
    /// 1.0.
    pub open spec fn fresh_pool(&self, outcome: MarketOutcome, now: i64) -> Pool {
        Pool {
            market: self.market_key,
            outcome,
            base_token_mint: self.market.base_token_mint,
            share_token_mint: if outcome == MarketOutcome::Yes {
                self.market.yes_share_mint
            } else {
                self.market.no_share_mint
            },
            base_token_vault: if outcome == MarketOutcome::Yes {
                self.yes_base_vault
            } else {
                self.no_base_vault
            },
            share_token_vault: if outcome == MarketOutcome::Yes {
                self.yes_share_vault
            } else {
                self.no_share_vault
            },
            lp_token_mint: if outcome == MarketOutcome::Yes {
                self.yes_lp_mint
            } else {
                self.no_lp_mint
            },
            base_reserves: 0,
            share_reserves: 0,
            lp_token_supply: 0,
            current_price: 1_000_000,
            volume: 0,
            fees_collected: 0,
            fee_rate: self.market.fee_rate,
            last_update: now,
            bump: if outcome == MarketOutcome::Yes {
                self.yes_pool_bump
            } else {
                self.no_pool_bump
            },
        }
    }

    /// The records after pool creation: both pools empty, at the price of an
    /// empty pool and with the market's fee rate, and the market bound to
    /// them.
    /// Only the market's creator may create them, and only while the market
    /// is open for trading.
    pub open spec fn after_creation(&self, now: i64) -> Result<CreatePools, PoolOddsError> {
        if self.market.creator != self.creator {
            Err(PoolOddsError::Unauthorized)
        } else if !self.market.spec_can_trade(now) {
            Err(PoolOddsError::MarketNotActive)
        } else {
            Ok(
                CreatePools {
                    market: Market {
                        yes_pool: self.yes_pool_key,
                        no_pool: self.no_pool_key,
                        ..self.market
                    },
                    yes_pool: self.fresh_pool(MarketOutcome::Yes, now),
                    no_pool: self.fresh_pool(MarketOutcome::No, now),
                    ..*self
                },
            )
        }
    }
}

/// Creates the two pools of a market at time `now`. On failure nothing
/// changes.
pub fn handler(ctx: &mut CreatePools, _params: CreatePoolsParams, now: i64) -> (r: Result<
    (),
    PoolOddsError,
>)
    ensures
        match old(ctx).after_creation(now) {
            Ok(next) => r == Ok::<(), PoolOddsError>(()) && *final(ctx) == next,
            Err(e) => r == Err::<(), PoolOddsError>(e) && *final(ctx) == *old(ctx),
        },
        old(ctx).market.is_well_formed() ==> final(ctx).market.is_well_formed(),
        r is Ok ==> {
            &&& price_of(final(ctx).yes_pool.base_reserves, final(ctx).yes_pool.share_reserves)
                == Ok::<u64, PoolOddsError>(final(ctx).yes_pool.current_price)
            &&& price_of(final(ctx).no_pool.base_reserves, final(ctx).no_pool.share_reserves)
                == Ok::<u64, PoolOddsError>(final(ctx).no_pool.current_price)
        },
{
    if !ctx.market.creator.same_as(&ctx.creator) {
        return Err(PoolOddsError::Unauthorized);
    }
    if !ctx.market.can_trade(now) {
        return Err(PoolOddsError::MarketNotActive);
    }
    ctx.yes_pool =
    Pool {
        market: ctx.market_key,
        outcome: MarketOutcome::Yes,
        base_token_mint: ctx.market.base_token_mint,
        share_token_mint: ctx.market.yes_share_mint,
        base_token_vault: ctx.yes_base_vault,
        share_token_vault: ctx.yes_share_vault,
        lp_token_mint: ctx.yes_lp_mint,
        base_reserves: 0,
        share_reserves: 0,
        lp_token_supply: 0,
        current_price: 1_000_000,
        volume: 0,
        fees_collected: 0,
        fee_rate: ctx.market.fee_rate,
        last_update: now,
        bump: ctx.yes_pool_bump,
    };
    ctx.no_pool =
    Pool {
        market: ctx.market_key,
        outcome: MarketOutcome::No,
        base_token_mint: ctx.market.base_token_mint,
        share_token_mint: ctx.market.no_share_mint,
        base_token_vault: ctx.no_base_vault,
        share_token_vault: ctx.no_share_vault,
        lp_token_mint: ctx.no_lp_mint,
        base_reserves: 0,
        share_reserves: 0,
        lp_token_supply: 0,
        current_price: 1_000_000,
        volume: 0,
        fees_collected: 0,
        fee_rate: ctx.market.fee_rate,
        last_update: now,
        bump: ctx.no_pool_bump,
    };
    ctx.market.yes_pool = ctx.yes_pool_key;
    ctx.market.no_pool = ctx.no_pool_key;
    Ok(())
}

} // verus!
