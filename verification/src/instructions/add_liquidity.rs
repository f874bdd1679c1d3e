use vstd::prelude::*;
use crate::errors::PoolOddsError;
use crate::state::address::Address;
use crate::state::market::Market;
use crate::state::pool::{price_of, Pool};
use crate::state::position::LiquidityPosition;

verus! {

/// What a liquidity provider deposits.
#[derive(Clone, Copy, Debug)]
pub struct AddLiquidityParams {
    pub base_amount: u64,
    pub share_amount: u64,
    /// Fewest claim tokens that the provider accepts
    pub min_lp_tokens: u64,
}

/// The records that a deposit reads and writes.
#[derive(Clone, Copy, Debug)]
pub struct AddLiquidity {
    pub market: Market,
    /// Address of the market record
    pub market_key: Address,
    pub pool: Pool,
    /// Address of the pool record
    pub pool_key: Address,
    pub liquidity_position: LiquidityPosition,
    pub provider: Address,
    /// Bump seed of the position's address, kept when the position is opened
    pub position_bump: u8,
}

impl AddLiquidity {
    /// The position that the deposit is booked on: the stored one, or a
    /// fresh one for this provider and pool that records this deposit as its
    /// first.
    pub open spec fn opened_position(&self, params: AddLiquidityParams, now: i64) -> LiquidityPosition {
        if self.liquidity_position.owner.is_zero() {
            LiquidityPosition {
                owner: self.provider,
                pool: self.pool_key,
                lp_tokens: 0,
                initial_base_deposit: params.base_amount,
                initial_share_deposit: params.share_amount,
                fees_earned: 0,
                created_at: now,
                bump: self.position_bump,
                ..self.liquidity_position
            }
        } else {
            self.liquidity_position
        }
    }

    /// Number of liquidity providers after the deposit: one more if the
    /// position is opened by it.
    pub open spec fn counted_providers(&self) -> int {
        if self.liquidity_position.owner.is_zero() {
            self.market.lp_count + 1
        } else {
            self.market.lp_count as int
        }
    }

    /// Booking a deposit that mints `minted` claim tokens.
    pub open spec fn booked(&self, params: AddLiquidityParams, minted: u64, now: i64) -> Result<
        (AddLiquidity, u64),
        PoolOddsError,
    > {
        let position = self.opened_position(params, now);
        let base_reserves = self.pool.base_reserves + params.base_amount;
        let share_reserves = self.pool.share_reserves + params.share_amount;
        if base_reserves > u64::MAX || share_reserves > u64::MAX || self.pool.lp_token_supply
            + minted > u64::MAX || position.lp_tokens + minted > u64::MAX
            || self.market.total_liquidity + params.base_amount > u64::MAX
            || self.counted_providers() > u32::MAX {
            Err(PoolOddsError::MathOverflow)
        } else {
            match price_of(base_reserves as u64, share_reserves as u64) {
                Err(e) => Err(e),
                Ok(price) => Ok(
                    (
                        AddLiquidity {
                            market: Market {
                                total_liquidity: (self.market.total_liquidity
                                    + params.base_amount) as u64,
                                lp_count: self.counted_providers() as u32,
                                ..self.market
                            },
                            pool: Pool {
                                base_reserves: base_reserves as u64,
                                share_reserves: share_reserves as u64,
                                lp_token_supply: (self.pool.lp_token_supply + minted) as u64,
                                current_price: price,
                                last_update: now,
                                ..self.pool
                            },
                            liquidity_position: LiquidityPosition {
                                lp_tokens: (position.lp_tokens + minted) as u64,
                                last_update: now,
                                ..position
                            },
                            ..*self
                        },
                        minted,
                    ),
                ),
            }
        }
    }

    /// The whole deposit: the market must be open for trading at `now`, the
    /// pool must be one of this market's, both amounts must be positive, and
    /// the claim tokens minted must reach the provider's minimum.
    pub open spec fn after_deposit(&self, params: AddLiquidityParams, now: i64) -> Result<
        (AddLiquidity, u64),
        PoolOddsError,
    > {
        if !self.market.spec_can_trade(now) {
            Err(PoolOddsError::MarketNotActive)
        } else if self.pool.market != self.market_key {
            Err(PoolOddsError::InvalidPool)
        } else if params.base_amount == 0 || params.share_amount == 0 {
            Err(PoolOddsError::InvalidLiquidityAmount)
        } else {
            match self.pool.lp_tokens_for(params.base_amount, params.share_amount) {
                Err(e) => Err(e),
                Ok(minted) => if minted < params.min_lp_tokens {
                    Err(PoolOddsError::SlippageExceeded)
                } else {
                    self.booked(params, minted, now)
                },
            }
        }
    }
}

/// Deposits liquidity at time `now` and returns the claim tokens minted:
/// both deposits join the pool's reserves, the pool's supply and the
/// provider's holding grow by the tokens minted, and the price is recomputed.
/// On failure no record changes.
pub fn handler(ctx: &mut AddLiquidity, params: AddLiquidityParams, now: i64) -> (r: Result<
    u64,
    PoolOddsError,
>)
    ensures
        match old(ctx).after_deposit(params, now) {
            Ok(done) => r == Ok::<u64, PoolOddsError>(done.1) && *final(ctx) == done.0,
            Err(e) => r == Err::<u64, PoolOddsError>(e) && *final(ctx) == *old(ctx),
        },
        r is Ok ==> final(ctx).pool.lp_token_supply - old(ctx).pool.lp_token_supply == r->Ok_0
            && final(ctx).liquidity_position.lp_tokens - old(ctx).opened_position(
            params,
            now,
        ).lp_tokens == r->Ok_0,
        old(ctx).market.is_well_formed() ==> final(ctx).market.is_well_formed(),
{
    if !ctx.market.can_trade(now) {
        return Err(PoolOddsError::MarketNotActive);
    }
    if !ctx.pool.market.same_as(&ctx.market_key) {
        return Err(PoolOddsError::InvalidPool);
    }
    if params.base_amount == 0 || params.share_amount == 0 {
        return Err(PoolOddsError::InvalidLiquidityAmount);
    }
    let minted: u64 = ctx.pool.calculate_lp_tokens(params.base_amount, params.share_amount)?;
    if minted < params.min_lp_tokens {
        return Err(PoolOddsError::SlippageExceeded);
    }
    let mut position: LiquidityPosition = ctx.liquidity_position;
    let mut lp_count: u32 = ctx.market.lp_count;
    let opens: bool = position.owner.is_default();
    if opens {
        position.owner = ctx.provider;
        position.pool = ctx.pool_key;
        position.lp_tokens = 0;
        position.initial_base_deposit = params.base_amount;
        position.initial_share_deposit = params.share_amount;
        position.fees_earned = 0;
        position.created_at = now;
        position.bump = ctx.position_bump;
    }
    let base_reserves: u64 = match ctx.pool.base_reserves.checked_add(params.base_amount) {
        Some(v) => v,
        None => {
            return Err(PoolOddsError::MathOverflow);
        },
    };
    let share_reserves: u64 = match ctx.pool.share_reserves.checked_add(params.share_amount) {
        Some(v) => v,
        None => {
            return Err(PoolOddsError::MathOverflow);
        },
    };
    let lp_token_supply: u64 = match ctx.pool.lp_token_supply.checked_add(minted) {
        Some(v) => v,
        None => {
            return Err(PoolOddsError::MathOverflow);
        },
    };
    let lp_tokens: u64 = match position.lp_tokens.checked_add(minted) {
        Some(v) => v,
        None => {
            return Err(PoolOddsError::MathOverflow);
        },
    };
    let total_liquidity: u64 = match ctx.market.total_liquidity.checked_add(params.base_amount) {
        Some(v) => v,
        None => {
            return Err(PoolOddsError::MathOverflow);
        },
    };
    if opens {
        lp_count = match lp_count.checked_add(1) {
            Some(v) => v,
            None => {
                return Err(PoolOddsError::MathOverflow);
            },
        };
    }
    let mut pool: Pool = ctx.pool;
    pool.base_reserves = base_reserves;
    pool.share_reserves = share_reserves;
    pool.lp_token_supply = lp_token_supply;
    pool.current_price = pool.calculate_price()?;
    pool.last_update = now;
    position.lp_tokens = lp_tokens;
    position.last_update = now;
    ctx.market.total_liquidity = total_liquidity;
    ctx.market.lp_count = lp_count;
    ctx.pool = pool;
    ctx.liquidity_position = position;
    Ok(minted)
}

} // verus!
