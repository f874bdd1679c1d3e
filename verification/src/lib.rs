//! Accounting and pricing core of a binary-outcome prediction market: two
//! constant-product pools per market, the ledgers of traders and liquidity
//! providers, and the market's life from creation to resolution.

use vstd::prelude::*;
use crate::errors::PoolOddsError;
use crate::instructions::add_liquidity::{AddLiquidity, AddLiquidityParams};
use crate::instructions::create_market::{CreateMarket, CreateMarketParams};
use crate::instructions::create_pools::{CreatePools, CreatePoolsParams};
use crate::instructions::initialize::{Initialize, InitializeParams};
use crate::instructions::remove_liquidity::{RemoveLiquidity, RemoveLiquidityParams};
use crate::instructions::resolve_market::{ResolveMarket, ResolveMarketParams};
use crate::instructions::trade::{Trade, TradeParams, TradeReceipt};
use crate::state::global_state::GlobalState;
use crate::state::user::User;

pub mod constants;
pub mod errors;
pub mod instructions;
pub mod oracle;
pub mod state;
pub mod text;
pub mod utils;

verus! {

/// Writes the protocol configuration.
pub fn initialize(ctx: &mut Initialize, params: InitializeParams) -> (r: Result<(), PoolOddsError>)
    ensures
        match params.fault() {
            Some(e) => r == Err::<(), PoolOddsError>(e) && *final(ctx) == *old(ctx),
            None => r == Ok::<(), PoolOddsError>(()) && *final(ctx) == (
            Initialize { global_state: old(ctx).initial_state(params), ..*old(ctx) }),
        },
{
    instructions::initialize::handler(ctx, params)
}

/// Creates a prediction market at time `now`.
pub fn create_market(ctx: &mut CreateMarket, params: CreateMarketParams, now: i64) -> (r: Result<
    (),
    PoolOddsError,
>)
    ensures
        match old(ctx).refusal(params, now) {
            Some(e) => r == Err::<(), PoolOddsError>(e) && *final(ctx) == *old(ctx),
            None => {
                &&& r == Ok::<(), PoolOddsError>(())
                &&& old(ctx).is_created_market(final(ctx).market, params, now)
                &&& final(ctx).market.is_well_formed()
                &&& final(ctx).global_state == (GlobalState {
                    total_markets: (old(ctx).global_state.total_markets + 1) as u64,
                    ..old(ctx).global_state
                })
                &&& old(ctx).opened_user(now).after_market_creation(now) == Ok::<
                    User,
                    PoolOddsError,
                >(final(ctx).user)
                &&& *final(ctx) == (CreateMarket {
                    global_state: final(ctx).global_state,
                    market: final(ctx).market,
                    user: final(ctx).user,
                    ..*old(ctx)
                })
            },
        },
{
    instructions::create_market::handler(ctx, params, now)
}

/// Creates the YES and NO pools of a market at time `now`.
pub fn create_pools(ctx: &mut CreatePools, params: CreatePoolsParams, now: i64) -> (r: Result<
    (),
    PoolOddsError,
>)
    ensures
        match old(ctx).after_creation(now) {
            Ok(next) => r == Ok::<(), PoolOddsError>(()) && *final(ctx) == next,
            Err(e) => r == Err::<(), PoolOddsError>(e) && *final(ctx) == *old(ctx),
        },
{
    instructions::create_pools::handler(ctx, params, now)
}

/// Deposits liquidity into a pool at time `now`; returns the claim tokens
/// minted.
pub fn add_liquidity(ctx: &mut AddLiquidity, params: AddLiquidityParams, now: i64) -> (r: Result<
    u64,
    PoolOddsError,
>)
    ensures
        match old(ctx).after_deposit(params, now) {
            Ok(done) => r == Ok::<u64, PoolOddsError>(done.1) && *final(ctx) == done.0,
            Err(e) => r == Err::<u64, PoolOddsError>(e) && *final(ctx) == *old(ctx),
        },
{
    instructions::add_liquidity::handler(ctx, params, now)
}

/// Withdraws liquidity from a pool at time `now`; returns the base and share
/// tokens paid out.
pub fn remove_liquidity(ctx: &mut RemoveLiquidity, params: RemoveLiquidityParams, now: i64) -> (r:
    Result<(u64, u64), PoolOddsError>)
    ensures
        match old(ctx).after_withdrawal(params, now) {
            Ok(done) => r == Ok::<(u64, u64), PoolOddsError>(done.1) && *final(ctx) == done.0,
            Err(e) => r == Err::<(u64, u64), PoolOddsError>(e) && *final(ctx) == *old(ctx),
        },
{
    instructions::remove_liquidity::handler(ctx, params, now)
}

/// Executes a trade at time `now`: a buy or a sell of one outcome's shares.
pub fn trade(ctx: &mut Trade, params: TradeParams, now: i64) -> (r: Result<
    TradeReceipt,
    PoolOddsError,
>)
    ensures
        match old(ctx).after_trade(params, now) {
            Ok(done) => r == Ok::<TradeReceipt, PoolOddsError>(done.1) && *final(ctx) == done.0,
            Err(e) => r == Err::<TradeReceipt, PoolOddsError>(e) && *final(ctx) == *old(ctx),
        },
        r is Ok ==> final(ctx).pool.product() >= old(ctx).pool.product(),
{
    instructions::trade::handler(ctx, params, now)
}

/// Resolves a market at time `now`, by its oracle or by the resolver's word.
pub fn resolve_market(ctx: &mut ResolveMarket, params: ResolveMarketParams, now: i64) -> (r: Result<
    (),
    PoolOddsError,
>)
    requires
        old(ctx).market.has_oracle_data(),
    ensures
        old(ctx).market.is_well_formed() ==> final(ctx).market.is_well_formed(),
        final(ctx).market.has_oracle_data(),
        final(ctx).resolver == old(ctx).resolver,
        final(ctx).global_state == old(ctx).global_state,
        final(ctx).oracle_account == old(ctx).oracle_account,
        match old(ctx).after_resolution(params, old(ctx).decoded_price(), now) {
            Ok(market) => r == Ok::<(), PoolOddsError>(()) && final(ctx).market == market,
            Err(e) => r == Err::<(), PoolOddsError>(e) && final(ctx).market == old(ctx).market,
        },
{
    instructions::resolve_market::handler(ctx, params, now)
}

} // verus!
