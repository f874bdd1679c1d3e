use vstd::prelude::*;
use crate::constants::MAX_PRICE_IMPACT;
use crate::errors::PoolOddsError;
use crate::state::address::Address;
use crate::state::market::{Market, MarketOutcome};
use crate::state::pool::{fee_on, Pool};
use crate::state::position::Position;
use crate::state::user::User;
use crate::utils::{calculate_price_impact, mul_div_wide, spec_price_impact};

verus! {

/// What a trader asks for.
#[derive(Clone, Copy, Debug)]
pub struct TradeParams {
    pub outcome: MarketOutcome,
    pub amount_in: u64,
    pub min_amount_out: u64,
    /// true to buy shares with base tokens, false to sell shares for them
    pub is_buy: bool,
}

/// The records that one trade reads and writes.
#[derive(Clone, Copy, Debug)]
pub struct Trade {
    pub market: Market,
    /// Address of the market record
    pub market_key: Address,
    pub pool: Pool,
    pub position: Position,
    pub user: User,
    pub trader: Address,
    /// Bump seed of the position's address, kept when the position is opened
    pub position_bump: u8,
    /// Bump seed of the user's address, kept when the user is first seen
    pub user_bump: u8,
}

/// What a trade moved: the custodian takes `amount_in` from the trader and
/// hands `amount_out` over.
#[derive(Clone, Copy, Debug)]
pub struct TradeReceipt {
    pub amount_in: u64,
    pub amount_out: u64,
    pub fee_amount: u64,
    /// Price impact in basis points
    pub price_impact: u16,
}

impl Trade {
    /// What the trader receives and the fee recorded. A buy receives the
    /// pool's quote, with the fee counted on the amount paid in; a sell
    /// receives the quote less a fee counted on the quote. A quote under the
    /// trader's minimum fails.
    pub open spec fn quote(&self, params: TradeParams) -> Result<(u64, u64), PoolOddsError> {
        match self.pool.swap_output(params.amount_in, params.is_buy) {
            Err(e) => Err(e),
            Ok(gross) => if gross < params.min_amount_out {
                Err(PoolOddsError::SlippageExceeded)
            } else if params.is_buy {
                Ok((gross, fee_on(params.amount_in, self.pool.fee_rate) as u64))
            } else if fee_on(gross, self.pool.fee_rate) > gross {
                Err(PoolOddsError::MathOverflow)
            } else {
                Ok(
                    (
                        (gross - fee_on(gross, self.pool.fee_rate)) as u64,
                        fee_on(gross, self.pool.fee_rate) as u64,
                    ),
                )
            },
        }
    }

    /// Price impact of the trade on the reserve it pays into; more than
    /// `MAX_PRICE_IMPACT` is refused.
    pub open spec fn admitted_impact(&self, params: TradeParams) -> Result<u16, PoolOddsError> {
        match spec_price_impact(self.pool.input_reserve(params.is_buy), params.amount_in) {
            Err(e) => Err(e),
            Ok(impact) => if impact > MAX_PRICE_IMPACT {
                Err(PoolOddsError::PriceImpactTooHigh)
            } else {
                Ok(impact)
            },
        }
    }

    /// The position that the trade is booked on: the stored one, or a fresh
    /// empty one for this trader, market and outcome if none was opened yet.
    pub open spec fn opened_position(&self, params: TradeParams, now: i64) -> Position {
        if self.position.owner.is_zero() {
            Position {
                owner: self.trader,
                market: self.market_key,
                outcome: params.outcome,
                shares: 0,
                average_price: 0,
                total_invested: 0,
                realized_pnl: 0,
                created_at: now,
                bump: self.position_bump,
                ..self.position
            }
        } else {
            self.position
        }
    }

    /// The user totals that the trade is counted on: the stored ones, or
    /// those of this trader, first seen now.
    pub open spec fn opened_user(&self, now: i64) -> User {
        if self.user.authority.is_zero() {
            User { authority: self.trader, created_at: now, bump: self.user_bump, ..self.user }
        } else {
            self.user
        }
    }

    /// Booking the fill on pool, position, user totals and market volume.
    pub open spec fn settled(&self, params: TradeParams, fill: (u64, u64), impact: u16, now: i64) -> Result<
        (Trade, TradeReceipt),
        PoolOddsError,
    > {
        let amount_out = fill.0;
        let fee_amount = fill.1;
        match self.pool.after_swap(params.amount_in, amount_out, fee_amount, params.is_buy, now) {
            Err(e) => Err(e),
            Ok(pool) => if (params.is_buy && amount_out > i64::MAX) || (!params.is_buy
                && params.amount_in > i64::MAX) {
                Err(PoolOddsError::MathOverflow)
            } else {
                let shares_delta = if params.is_buy {
                    amount_out as i64
                } else {
                    (-(params.amount_in as int)) as i64
                };
                let trade_amount = if params.is_buy {
                    params.amount_in
                } else {
                    amount_out
                };
                match self.opened_position(params, now).after_trade(
                    shares_delta,
                    trade_amount,
                    now,
                ) {
                    Err(e) => Err(e),
                    Ok(position) => match self.opened_user(now).after_trade(
                        params.amount_in,
                        fee_amount,
                        now,
                    ) {
                        Err(e) => Err(e),
                        Ok(user) => if self.market.total_volume + params.amount_in > u64::MAX {
                            Err(PoolOddsError::MathOverflow)
                        } else {
                            Ok(
                                (
                                    Trade {
                                        market: Market {
                                            total_volume: (self.market.total_volume
                                                + params.amount_in) as u64,
                                            ..self.market
                                        },
                                        pool,
                                        position,
                                        user,
                                        ..*self
                                    },
                                    TradeReceipt {
                                        amount_in: params.amount_in,
                                        amount_out,
                                        fee_amount,
                                        price_impact: impact,
                                    },
                                ),
                            )
                        },
                    },
                }
            },
        }
    }

    /// The whole trade: the market must be open for trading at `now`, the
    /// pool must be this market's pool for the outcome asked for, the quote
    /// must meet the trader's minimum and the price impact the ceiling; then
    /// the fill is booked.
    pub open spec fn after_trade(&self, params: TradeParams, now: i64) -> Result<
        (Trade, TradeReceipt),
        PoolOddsError,
    > {
        if !self.market.spec_can_trade(now) {
            Err(PoolOddsError::MarketNotActive)
        } else if self.pool.market != self.market_key || self.pool.outcome != params.outcome {
            Err(PoolOddsError::InvalidPool)
        } else {
            match self.quote(params) {
                Err(e) => Err(e),
                Ok(fill) => match self.admitted_impact(params) {
                    Err(e) => Err(e),
                    Ok(impact) => self.settled(params, fill, impact, now),
                },
            }
        }
    }
}

/// Fee on `amount` at `fee_rate` basis points.
fn fee_amount_on(amount: u64, fee_rate: u16) -> (fee: u128)
    ensures
        fee == fee_on(amount, fee_rate),
{
    mul_div_wide(amount, fee_rate as u64, 10_000)
}

/// Executes one trade at time `now`: quotes it against the pool, checks
/// slippage and price impact, and books it on the pool, the trader's
/// position, the user totals and the market volume. On failure no record
/// changes. A trade that succeeds never lowers the product of the pool's
/// reserves.
pub fn handler(ctx: &mut Trade, params: TradeParams, now: i64) -> (r: Result<
    TradeReceipt,
    PoolOddsError,
>)
    ensures
        match old(ctx).after_trade(params, now) {
            Ok(done) => r == Ok::<TradeReceipt, PoolOddsError>(done.1) && *final(ctx) == done.0,
            Err(e) => r == Err::<TradeReceipt, PoolOddsError>(e) && *final(ctx) == *old(ctx),
        },
        r is Ok ==> final(ctx).pool.product() >= old(ctx).pool.product(),
        final(ctx).pool.lp_token_supply == old(ctx).pool.lp_token_supply,
        final(ctx).market.status == old(ctx).market.status,
        final(ctx).market.winning_outcome == old(ctx).market.winning_outcome,
        old(ctx).market.is_well_formed() ==> final(ctx).market.is_well_formed(),
{
    if !ctx.market.can_trade(now) {
        return Err(PoolOddsError::MarketNotActive);
    }
    if !ctx.pool.market.same_as(&ctx.market_key) || ctx.pool.outcome != params.outcome {
        return Err(PoolOddsError::InvalidPool);
    }
    let mut pool: Pool = ctx.pool;
    let gross: u64 = pool.calculate_swap_output(params.amount_in, params.is_buy)?;
    if gross < params.min_amount_out {
        return Err(PoolOddsError::SlippageExceeded);
    }
    let (amount_out, fee_amount): (u64, u64) = if params.is_buy {
        let fee: u128 = fee_amount_on(params.amount_in, pool.fee_rate);
        (gross, fee as u64)
    } else {
        let fee: u128 = fee_amount_on(gross, pool.fee_rate);
        if fee > gross as u128 {
            return Err(PoolOddsError::MathOverflow);
        }
        (gross - fee as u64, fee as u64)
    };
    let reserve: u64 = if params.is_buy {
        pool.base_reserves
    } else {
        pool.share_reserves
    };
    let price_impact: u16 = calculate_price_impact(reserve, params.amount_in)?;
    if price_impact > MAX_PRICE_IMPACT {
        return Err(PoolOddsError::PriceImpactTooHigh);
    }
    pool.update_reserves_after_swap(params.amount_in, amount_out, fee_amount, params.is_buy, now)?;
    proof {
        Pool::lemma_swap_conserves_product(
            ctx.pool,
            params.amount_in,
            amount_out,
            fee_amount,
            params.is_buy,
            now,
        );
    }

    let mut position: Position = ctx.position;
    if position.owner.is_default() {
        position.owner = ctx.trader;
        position.market = ctx.market_key;
        position.outcome = params.outcome;
        position.shares = 0;
        position.average_price = 0;
        position.total_invested = 0;
        position.realized_pnl = 0;
        position.created_at = now;
        position.bump = ctx.position_bump;
    }
    let shares_delta: i64 = if params.is_buy {
        if amount_out > i64::MAX as u64 {
            return Err(PoolOddsError::MathOverflow);
        }
        amount_out as i64
    } else {
        if params.amount_in > i64::MAX as u64 {
            return Err(PoolOddsError::MathOverflow);
        }
        -(params.amount_in as i64)
    };
    let trade_amount: u64 = if params.is_buy {
        params.amount_in
    } else {
        amount_out
    };
    position.update_after_trade(shares_delta, pool.current_price, trade_amount, now)?;

    let mut user: User = ctx.user;
    if user.authority.is_default() {
        user.authority = ctx.trader;
        user.created_at = now;
        user.bump = ctx.user_bump;
    }
    user.update_after_trade(params.amount_in, fee_amount, now)?;

    let total_volume: u64 = match ctx.market.total_volume.checked_add(params.amount_in) {
        Some(v) => v,
        None => {
            return Err(PoolOddsError::MathOverflow);
        },
    };
    ctx.market.total_volume = total_volume;
    ctx.pool = pool;
    ctx.position = position;
    ctx.user = user;
    Ok(TradeReceipt { amount_in: params.amount_in, amount_out, fee_amount, price_impact })
}

} // verus!
