use vstd::prelude::*;
use vstd::utf8::encode_utf8;
use crate::errors::PoolOddsError;
use crate::state::address::Address;
use crate::state::global_state::GlobalState;
use crate::state::market::{Market, MarketStatus, ResolutionSource};
use crate::state::user::User;
use crate::text::zero_padded;

verus! {

/// What the creator of a market hands in.
#[derive(Clone, Debug)]
pub struct CreateMarketParams {
    pub title: String,
    pub description: String,
    pub category: u8,
    pub end_time: i64,
    pub resolution_source: ResolutionSource,
    pub oracle_account: Option<Address>,
    pub target_price: Option<u64>,
    pub bond_amount: u64,
}

/// The records that market creation reads and writes.
#[derive(Clone, Copy, Debug)]
pub struct CreateMarket {
    pub global_state: GlobalState,
    pub market: Market,
    pub user: User,
    pub creator: Address,
    pub yes_share_mint: Address,
    pub no_share_mint: Address,
    pub base_token_mint: Address,
    /// Bump seed of the market's address
    pub market_bump: u8,
    /// Bump seed of the user's address, kept when the user is first seen
    pub user_bump: u8,
}

impl CreateMarket {
    /// The first reason to refuse the market, if there is one: the protocol
    /// is paused, the duration from `now` or the bond is out of bounds, the
    /// title or description is too long, the market would not end after
    /// `now`, the creator has reached the market limit, an oracle market
    /// lacks its oracle account or target price, or a counter would overflow.
    pub open spec fn refusal(&self, params: CreateMarketParams, now: i64) -> Option<
        PoolOddsError,
    > {
        let duration = params.end_time - now;
        if self.global_state.paused {
            Some(PoolOddsError::ProgramPaused)
        } else if !(self.global_state.min_market_duration <= duration
            <= self.global_state.max_market_duration) {
            Some(PoolOddsError::InvalidMarketDuration)
        } else if params.bond_amount < self.global_state.min_bond_amount {
            Some(PoolOddsError::InsufficientBondAmount)
        } else if encode_utf8(params.title@).len() > 64 {
            Some(PoolOddsError::TitleTooLong)
        } else if encode_utf8(params.description@).len() > 128 {
            Some(PoolOddsError::DescriptionTooLong)
        } else if params.end_time <= now {
            Some(PoolOddsError::InvalidEndTime)
        } else if self.user.markets_created >= self.global_state.max_markets_per_creator {
            Some(PoolOddsError::TooManyMarkets)
        } else if params.resolution_source == ResolutionSource::Oracle && !(
        params.oracle_account.is_some() && params.target_price.is_some()) {
            Some(PoolOddsError::MissingOracleData)
        } else if self.global_state.total_markets + 1 > u64::MAX || self.user.markets_created + 1
            > u32::MAX {
            Some(PoolOddsError::MathOverflow)
        } else {
            None
        }
    }

    /// `market` is the record that market creation writes: active, not yet
    /// resolved, not yet bound to pools, with the protocol's default fee rate
    /// and all counters at zero.
    pub open spec fn is_created_market(
        &self,
        market: Market,
        params: CreateMarketParams,
        now: i64,
    ) -> bool {
        &&& market.creator == self.creator
        &&& market.title@ == zero_padded(encode_utf8(params.title@), 64)
        &&& market.description@ == zero_padded(encode_utf8(params.description@), 128)
        &&& market.category == params.category
        &&& market.status == MarketStatus::Active
        &&& market.resolution_source == params.resolution_source
        &&& market.oracle_account == params.oracle_account
        &&& market.target_price == params.target_price
        &&& market.created_at == now
        &&& market.end_time == params.end_time
        &&& market.resolved_at.is_none()
        &&& market.winning_outcome.is_none()
        &&& market.yes_pool.is_zero()
        &&& market.no_pool.is_zero()
        &&& market.base_token_mint == self.base_token_mint
        &&& market.yes_share_mint == self.yes_share_mint
        &&& market.no_share_mint == self.no_share_mint
        &&& market.fee_rate == self.global_state.default_market_fee_rate
        &&& market.total_volume == 0
        &&& market.total_liquidity == 0
        &&& market.bond_amount == params.bond_amount
        &&& market.trader_count == 0
        &&& market.lp_count == 0
        &&& market.bump == self.market_bump
    }

    /// The creator's totals that the new market is counted on: the stored
    /// ones, or those of this creator, first seen now.
    pub open spec fn opened_user(&self, now: i64) -> User {
        if self.user.authority.is_zero() {
            User { authority: self.creator, created_at: now, bump: self.user_bump, ..self.user }
        } else {
            self.user
        }
    }
}

/// Creates a market at time `now`: checks the request against the protocol
/// configuration, writes the market record, and counts the market on the
/// protocol's and the creator's totals. The creator's bond of
/// `params.bond_amount` is due on success. On failure nothing changes.
pub fn handler(ctx: &mut CreateMarket, params: CreateMarketParams, now: i64) -> (r: Result<
    (),
    PoolOddsError,
>)
    ensures
        match old(ctx).refusal(params, now) {
            Some(e) => r == Err::<(), PoolOddsError>(e) && *final(ctx) == *old(ctx),
            None => {
                &&& r == Ok::<(), PoolOddsError>(())
                &&& old(ctx).is_created_market(final(ctx).market, params, now)
                &&& final(ctx).market.is_well_formed()
                &&& final(ctx).global_state == (GlobalState {
                    total_markets: (old(ctx).global_state.total_markets + 1) as u64,
                    ..old(ctx).global_state
                })
                &&& old(ctx).opened_user(now).after_market_creation(now) == Ok::<
                    User,
                    PoolOddsError,
                >(final(ctx).user)
                &&& *final(ctx) == (CreateMarket {
                    global_state: final(ctx).global_state,
                    market: final(ctx).market,
                    user: final(ctx).user,
                    ..*old(ctx)
                })
            },
        },
{
    if ctx.global_state.is_paused() {
        return Err(PoolOddsError::ProgramPaused);
    }
    let duration: i128 = params.end_time as i128 - now as i128;
    if duration < ctx.global_state.min_market_duration as i128 || duration
        > ctx.global_state.max_market_duration as i128 {
        return Err(PoolOddsError::InvalidMarketDuration);
    }
    ctx.global_state.validate_bond_amount(params.bond_amount)?;
    if params.title.as_str().as_bytes().len() > 64 {
        return Err(PoolOddsError::TitleTooLong);
    }
    if params.description.as_str().as_bytes().len() > 128 {
        return Err(PoolOddsError::DescriptionTooLong);
    }
    if params.end_time <= now {
        return Err(PoolOddsError::InvalidEndTime);
    }
    if !ctx.user.can_create_market(ctx.global_state.max_markets_per_creator) {
        return Err(PoolOddsError::TooManyMarkets);
    }
    if params.resolution_source == ResolutionSource::Oracle {
        if !(params.oracle_account.is_some() && params.target_price.is_some()) {
            return Err(PoolOddsError::MissingOracleData);
        }
    }
    let total_markets: u64 = match ctx.global_state.total_markets.checked_add(1) {
        Some(v) => v,
        None => {
            return Err(PoolOddsError::MathOverflow);
        },
    };
    let mut user: User = ctx.user;
    if user.authority.is_default() {
        user.authority = ctx.creator;
        user.created_at = now;
        user.bump = ctx.user_bump;
    }
    user.update_after_market_creation(now)?;

    let mut market: Market = ctx.market;
    market.creator = ctx.creator;
    let titled = market.set_title(params.title.as_str());
    let described = market.set_description(params.description.as_str());
    assert(titled is Ok && described is Ok);
    market.category = params.category;
    market.status = MarketStatus::Active;
    market.resolution_source = params.resolution_source;
    market.oracle_account = params.oracle_account;
    market.target_price = params.target_price;
    market.created_at = now;
    market.end_time = params.end_time;
    market.resolved_at = None;
    market.winning_outcome = None;
    market.yes_pool = Address::default_address();
    market.no_pool = Address::default_address();
    market.base_token_mint = ctx.base_token_mint;
    market.yes_share_mint = ctx.yes_share_mint;
    market.no_share_mint = ctx.no_share_mint;
    market.fee_rate = ctx.global_state.default_market_fee_rate;
    market.total_volume = 0;
    market.total_liquidity = 0;
    market.bond_amount = params.bond_amount;
    market.trader_count = 0;
    market.lp_count = 0;
    market.bump = ctx.market_bump;

    ctx.market = market;
    ctx.global_state.total_markets = total_markets;
    ctx.user = user;
    Ok(())
}

} // verus!
