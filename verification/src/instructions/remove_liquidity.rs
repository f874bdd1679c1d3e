use vstd::prelude::*;
use crate::errors::PoolOddsError;
use crate::state::address::Address;
use crate::state::pool::{price_of, Pool};
use crate::state::position::{
    lemma_partial_claims_within_reserve, redeemable, LiquidityPosition,
};
use crate::utils::{mul_div, spec_mul_div};

verus! {

/// What a liquidity provider withdraws.
#[derive(Clone, Copy, Debug)]
pub struct RemoveLiquidityParams {
    /// Claim tokens to redeem
    pub lp_tokens: u64,
    /// Fewest base tokens that the provider accepts
    pub min_base_amount: u64,
    /// Fewest share tokens that the provider accepts
    pub min_share_amount: u64,
}

/// The records that a withdrawal reads and writes.
#[derive(Clone, Copy, Debug)]
pub struct RemoveLiquidity {
    pub pool: Pool,
    /// Address of the pool record
    pub pool_key: Address,
    pub liquidity_position: LiquidityPosition,
    pub provider: Address,
}

impl RemoveLiquidity {
    /// What `lp_tokens` claim tokens redeem of the two reserves, in checked
    /// 64-bit arithmetic.
    pub open spec fn claim(&self, lp_tokens: u64) -> Result<(u64, u64), PoolOddsError> {
        match spec_mul_div(self.pool.base_reserves, lp_tokens, self.pool.lp_token_supply) {
            Err(e) => Err(e),
            Ok(base_amount) => match spec_mul_div(
                self.pool.share_reserves,
                lp_tokens,
                self.pool.lp_token_supply,
            ) {
                Err(e) => Err(e),
                Ok(share_amount) => Ok((base_amount, share_amount)),
            },
        }
    }

    /// Booking a withdrawal of `paid` for `params.lp_tokens` claim tokens.
    pub open spec fn booked(&self, params: RemoveLiquidityParams, paid: (u64, u64), now: i64) -> Result<
        (RemoveLiquidity, (u64, u64)),
        PoolOddsError,
    > {
        let base_reserves = self.pool.base_reserves - paid.0;
        let share_reserves = self.pool.share_reserves - paid.1;
        if base_reserves < 0 || share_reserves < 0 {
            Err(PoolOddsError::InsufficientLiquidity)
        } else {
            match price_of(base_reserves as u64, share_reserves as u64) {
                Err(e) => Err(e),
                Ok(price) => Ok(
                    (
                        RemoveLiquidity {
                            pool: Pool {
                                base_reserves: base_reserves as u64,
                                share_reserves: share_reserves as u64,
                                lp_token_supply: (self.pool.lp_token_supply
                                    - params.lp_tokens) as u64,
                                current_price: price,
                                last_update: now,
                                ..self.pool
                            },
                            liquidity_position: LiquidityPosition {
                                lp_tokens: (self.liquidity_position.lp_tokens
                                    - params.lp_tokens) as u64,
                                last_update: now,
                                ..self.liquidity_position
                            },
                            ..*self
                        },
                        paid,
                    ),
                ),
            }
        }
    }

    /// The whole withdrawal: the position must be the provider's and on this
    /// pool, the tokens redeemed must be positive and within both the
    /// provider's holding and the pool's supply, and what they redeem must
    /// reach the provider's minimums.
    pub open spec fn after_withdrawal(&self, params: RemoveLiquidityParams, now: i64) -> Result<
        (RemoveLiquidity, (u64, u64)),
        PoolOddsError,
    > {
        if self.liquidity_position.owner != self.provider {
            Err(PoolOddsError::Unauthorized)
        } else if self.liquidity_position.pool != self.pool_key {
            Err(PoolOddsError::InvalidPool)
        } else if params.lp_tokens == 0 {
            Err(PoolOddsError::InvalidLiquidityAmount)
        } else if params.lp_tokens > self.liquidity_position.lp_tokens || params.lp_tokens
            > self.pool.lp_token_supply {
            Err(PoolOddsError::InsufficientLPTokens)
        } else {
            match self.claim(params.lp_tokens) {
                Err(e) => Err(e),
                Ok(paid) => if paid.0 < params.min_base_amount || paid.1
                    < params.min_share_amount {
                    Err(PoolOddsError::SlippageExceeded)
                } else {
                    self.booked(params, paid, now)
                },
            }
        }
    }
}

/// Withdraws liquidity at time `now` and returns the base and share tokens
/// paid out: the proportional claim of the tokens redeemed leaves the
/// reserves, and the pool's supply and the provider's holding shrink by the
/// tokens redeemed. What is paid out never exceeds a reserve. On failure no
/// record changes.
pub fn handler(ctx: &mut RemoveLiquidity, params: RemoveLiquidityParams, now: i64) -> (r: Result<
    (u64, u64),
    PoolOddsError,
>)
    ensures
        match old(ctx).after_withdrawal(params, now) {
            Ok(done) => r == Ok::<(u64, u64), PoolOddsError>(done.1) && *final(ctx) == done.0,
            Err(e) => r == Err::<(u64, u64), PoolOddsError>(e) && *final(ctx) == *old(ctx),
        },
        r is Ok ==> {
            &&& r->Ok_0.0 == redeemable(
                old(ctx).pool.base_reserves as nat,
                params.lp_tokens as nat,
                old(ctx).pool.lp_token_supply as nat,
            )
            &&& r->Ok_0.1 == redeemable(
                old(ctx).pool.share_reserves as nat,
                params.lp_tokens as nat,
                old(ctx).pool.lp_token_supply as nat,
            )
            &&& final(ctx).pool.base_reserves + r->Ok_0.0 == old(ctx).pool.base_reserves
            &&& final(ctx).pool.share_reserves + r->Ok_0.1 == old(ctx).pool.share_reserves
            &&& old(ctx).pool.lp_token_supply - final(ctx).pool.lp_token_supply
                == params.lp_tokens
            &&& old(ctx).liquidity_position.lp_tokens - final(ctx).liquidity_position.lp_tokens
                == params.lp_tokens
        },
        !(r is Err && r->Err_0 == PoolOddsError::InsufficientLiquidity),
{
    if !ctx.liquidity_position.owner.same_as(&ctx.provider) {
        return Err(PoolOddsError::Unauthorized);
    }
    if !ctx.liquidity_position.pool.same_as(&ctx.pool_key) {
        return Err(PoolOddsError::InvalidPool);
    }
    if params.lp_tokens == 0 {
        return Err(PoolOddsError::InvalidLiquidityAmount);
    }
    if params.lp_tokens > ctx.liquidity_position.lp_tokens || params.lp_tokens
        > ctx.pool.lp_token_supply {
        return Err(PoolOddsError::InsufficientLPTokens);
    }
    let base_amount: u64 = mul_div(ctx.pool.base_reserves, params.lp_tokens, ctx.pool.lp_token_supply)?;
    let share_amount: u64 = mul_div(
        ctx.pool.share_reserves,
        params.lp_tokens,
        ctx.pool.lp_token_supply,
    )?;
    if base_amount < params.min_base_amount || share_amount < params.min_share_amount {
        return Err(PoolOddsError::SlippageExceeded);
    }
    proof {
        let held: Seq<nat> = seq![params.lp_tokens as nat];
        assert(held.drop_last() =~= Seq::<nat>::empty());
        reveal_with_fuel(crate::state::position::total_tokens, 2);
        reveal_with_fuel(crate::state::position::total_redeemable, 2);
        lemma_partial_claims_within_reserve(
            ctx.pool.base_reserves as nat,
            held,
            ctx.pool.lp_token_supply as nat,
        );
        lemma_partial_claims_within_reserve(
            ctx.pool.share_reserves as nat,
            held,
            ctx.pool.lp_token_supply as nat,
        );
    }
    let mut pool: Pool = ctx.pool;
    pool.base_reserves = pool.base_reserves - base_amount;
    pool.share_reserves = pool.share_reserves - share_amount;
    pool.lp_token_supply = pool.lp_token_supply - params.lp_tokens;
    pool.current_price = pool.calculate_price()?;
    pool.last_update = now;
    ctx.pool = pool;
    ctx.liquidity_position.lp_tokens = ctx.liquidity_position.lp_tokens - params.lp_tokens;
    ctx.liquidity_position.last_update = now;
    Ok((base_amount, share_amount))
}

} // verus!
