use vstd::prelude::*;
use crate::errors::PoolOddsError;
use crate::state::address::Address;
use crate::state::market::MarketOutcome;
use crate::utils::{
    floor_sqrt, lemma_product_fits_wide, mul_div, mul_div_wide, spec_mul_div, sqrt_u128,
};

verus! {

/// The constant-product pool of one outcome of one market.
#[derive(Clone, Copy, Debug)]
pub struct Pool {
    /// Associated market
    pub market: Address,
    /// Pool outcome (YES or NO)
    pub outcome: MarketOutcome,
    /// Base token mint
    pub base_token_mint: Address,
    /// Share token mint
    pub share_token_mint: Address,
    /// Base token vault
    pub base_token_vault: Address,
    /// Share token vault
    pub share_token_vault: Address,
    /// LP token mint
    pub lp_token_mint: Address,
    /// Current base token reserves
    pub base_reserves: u64,
    /// Current share token reserves
    pub share_reserves: u64,
    /// Total LP tokens issued
    pub lp_token_supply: u64,
    /// Current price (base tokens per share), in six-decimal fixed point
    pub current_price: u64,
    /// Total volume traded
    pub volume: u64,
    /// Total fees collected
    pub fees_collected: u64,
    /// Fee rate (basis points)
    pub fee_rate: u16,
    /// Last update timestamp
    pub last_update: i64,
    /// Address bump seed
    pub bump: u8,
}

/// Price of a share in base tokens, in six-decimal fixed point: 1.0 for a
/// pool without shares, else the ratio of the reserves, truncated. The scaled
/// base reserve must fit in 64 bits.
pub open spec fn price_of(base_reserves: u64, share_reserves: u64) -> Result<u64, PoolOddsError> {
    if share_reserves == 0 {
        Ok(1_000_000u64)
    } else {
        spec_mul_div(base_reserves, 1_000_000, share_reserves)
    }
}

/// Fee on `amount` at `fee_rate` basis points, truncated.
pub open spec fn fee_on(amount: u64, fee_rate: u16) -> nat {
    (amount * fee_rate / 10_000) as nat
}

/// Output of the constant-product rule: what leaves `output_reserve` when
/// `input_after_fee` is swapped in against `input_reserve`, truncated.
pub open spec fn constant_product_output(
    input_reserve: nat,
    output_reserve: nat,
    input_after_fee: nat,
) -> nat {
    if input_reserve + input_after_fee == 0 {
        0
    } else {
        output_reserve * input_after_fee / (input_reserve + input_after_fee)
    }
}

/// A swap never pays out the whole output reserve or more than it holds.
pub proof fn lemma_output_within_reserve(
    input_reserve: nat,
    output_reserve: nat,
    input_after_fee: nat,
)
    requires
        input_reserve > 0,
    ensures
        constant_product_output(input_reserve, output_reserve, input_after_fee) <= output_reserve,
        output_reserve > 0 ==> constant_product_output(
            input_reserve,
            output_reserve,
            input_after_fee,
        ) < output_reserve,
{
    let d = input_reserve + input_after_fee;
    let q = output_reserve * input_after_fee / d;
    assert(q * d <= output_reserve * input_after_fee) by (nonlinear_arith)
        requires
            d > 0,
            q == output_reserve * input_after_fee / d,
    ;
    assert(q <= output_reserve && (output_reserve > 0 ==> q < output_reserve))
        by (nonlinear_arith)
        requires
            q * d <= output_reserve * input_after_fee,
            d == input_reserve + input_after_fee,
            input_reserve > 0,
    ;
}

/// The smaller of two numbers.
pub open spec fn lesser(a: u64, b: u64) -> u64 {
    if a <= b {
        a
    } else {
        b
    }
}

impl Pool {
    /// Reserve that a swap pays into.
    pub open spec fn input_reserve(&self, input_is_base: bool) -> u64 {
        if input_is_base {
            self.base_reserves
        } else {
            self.share_reserves
        }
    }

    /// Reserve that a swap pays out of.
    pub open spec fn output_reserve(&self, input_is_base: bool) -> u64 {
        if input_is_base {
            self.share_reserves
        } else {
            self.base_reserves
        }
    }

    /// Quote for swapping `input_amount` in: the fee is taken off the input
    /// and stays in the pool, the rest is priced by the constant-product rule.
    pub open spec fn swap_output(&self, input_amount: u64, input_is_base: bool) -> Result<
        u64,
        PoolOddsError,
    > {
        let input_reserve = self.input_reserve(input_is_base);
        let output_reserve = self.output_reserve(input_is_base);
        let fee = fee_on(input_amount, self.fee_rate);
        if input_reserve == 0 || output_reserve == 0 {
            Err(PoolOddsError::InsufficientLiquidity)
        } else if fee > input_amount || input_reserve + (input_amount - fee) > u64::MAX {
            Err(PoolOddsError::MathOverflow)
        } else {
            Ok(
                constant_product_output(
                    input_reserve as nat,
                    output_reserve as nat,
                    (input_amount - fee) as nat,
                ) as u64,
            )
        }
    }

    /// Claim tokens minted for a deposit: the integer square root of the
    /// product of the two deposits when the pool has issued none yet, else the
    /// smaller of the two deposits' proportions of the supply.
    pub open spec fn lp_tokens_for(&self, base_deposit: u64, share_deposit: u64) -> Result<
        u64,
        PoolOddsError,
    > {
        if self.lp_token_supply == 0 {
            if floor_sqrt((base_deposit * share_deposit) as nat) == 0 {
                Err(PoolOddsError::InsufficientLiquidityMinted)
            } else {
                Ok(floor_sqrt((base_deposit * share_deposit) as nat) as u64)
            }
        } else {
            match spec_mul_div(base_deposit, self.lp_token_supply, self.base_reserves) {
                Err(e) => Err(e),
                Ok(base_ratio) => match spec_mul_div(
                    share_deposit,
                    self.lp_token_supply,
                    self.share_reserves,
                ) {
                    Err(e) => Err(e),
                    Ok(share_ratio) => Ok(lesser(base_ratio, share_ratio)),
                },
            }
        }
    }

    /// The pool after a swap of `input_amount` in and `output_amount` out. A
    /// swap that would take more than the output reserve holds fails with
    /// `InsufficientLiquidity`.
    pub open spec fn after_swap(
        &self,
        input_amount: u64,
        output_amount: u64,
        fee_amount: u64,
        input_is_base: bool,
        now: i64,
    ) -> Result<Pool, PoolOddsError> {
        let new_input = self.input_reserve(input_is_base) + input_amount;
        let new_output = self.output_reserve(input_is_base) - output_amount;
        let new_base = if input_is_base {
            new_input
        } else {
            new_output
        };
        let new_share = if input_is_base {
            new_output
        } else {
            new_input
        };
        if new_output < 0 {
            Err(PoolOddsError::InsufficientLiquidity)
        } else if new_input > u64::MAX || self.fees_collected + fee_amount > u64::MAX || self.volume
            + input_amount > u64::MAX {
            Err(PoolOddsError::MathOverflow)
        } else {
            match price_of(new_base as u64, new_share as u64) {
                Err(e) => Err(e),
                Ok(price) => Ok(
                    Pool {
                        base_reserves: new_base as u64,
                        share_reserves: new_share as u64,
                        fees_collected: (self.fees_collected + fee_amount) as u64,
                        volume: (self.volume + input_amount) as u64,
                        current_price: price,
                        last_update: now,
                        ..*self
                    },
                ),
            }
        }
    }

    /// Price of a share from the current reserves.
    pub fn calculate_price(&self) -> (r: Result<u64, PoolOddsError>)
        ensures
            r == price_of(self.base_reserves, self.share_reserves),
    {
        if self.share_reserves == 0 {
            return Ok(1_000_000);
        }
        mul_div(self.base_reserves, 1_000_000, self.share_reserves)
    }

    /// Quotes a swap of `input_amount` base tokens for shares, or of shares
    /// for base tokens, without changing the pool.
    pub fn calculate_swap_output(&self, input_amount: u64, input_is_base: bool) -> (r: Result<
        u64,
        PoolOddsError,
    >)
        ensures
            r == self.swap_output(input_amount, input_is_base),
    {
        let (input_reserve, output_reserve) = if input_is_base {
            (self.base_reserves, self.share_reserves)
        } else {
            (self.share_reserves, self.base_reserves)
        };
        if input_reserve == 0 || output_reserve == 0 {
            return Err(PoolOddsError::InsufficientLiquidity);
        }
        let fee_amount: u128 = mul_div_wide(input_amount, self.fee_rate as u64, 10_000);
        if fee_amount > input_amount as u128 {
            return Err(PoolOddsError::MathOverflow);
        }
        let input_after_fee: u64 = input_amount - fee_amount as u64;
        let denominator: u64 = match input_reserve.checked_add(input_after_fee) {
            Some(v) => v,
            None => {
                return Err(PoolOddsError::MathOverflow);
            },
        };
        let output_amount: u128 = mul_div_wide(output_reserve, input_after_fee, denominator as u128);
        proof {
            lemma_output_within_reserve(
                input_reserve as nat,
                output_reserve as nat,
                input_after_fee as nat,
            );
        }
        Ok(output_amount as u64)
    }

    /// Claim tokens to mint for a deposit of `base_deposit` and
    /// `share_deposit`.
    pub fn calculate_lp_tokens(&self, base_deposit: u64, share_deposit: u64) -> (r: Result<
        u64,
        PoolOddsError,
    >)
        ensures
            r == self.lp_tokens_for(base_deposit, share_deposit),
    {
        if self.lp_token_supply == 0 {
            proof {
                lemma_product_fits_wide(base_deposit, share_deposit);
            }
            let product: u128 = (base_deposit as u128) * (share_deposit as u128);
            let root: u128 = sqrt_u128(product);
            proof {
                assert(root <= u64::MAX) by (nonlinear_arith)
                    requires
                        root * root <= product,
                        product <= 0xffff_ffff_ffff_fffe_0000_0000_0000_0001,
                ;
            }
            let lp_tokens: u64 = root as u64;
            if lp_tokens == 0 {
                return Err(PoolOddsError::InsufficientLiquidityMinted);
            }
            Ok(lp_tokens)
        } else {
            let base_ratio: u64 = match mul_div(
                base_deposit,
                self.lp_token_supply,
                self.base_reserves,
            ) {
                Ok(v) => v,
                Err(e) => {
                    return Err(e);
                },
            };
            let share_ratio: u64 = match mul_div(
                share_deposit,
                self.lp_token_supply,
                self.share_reserves,
            ) {
                Ok(v) => v,
                Err(e) => {
                    return Err(e);
                },
            };
            if base_ratio <= share_ratio {
                Ok(base_ratio)
            } else {
                Ok(share_ratio)
            }
        }
    }

    /// Books a swap: the input joins its reserve, the output leaves the
    /// other, fee and volume are accumulated, and the price is recomputed from
    /// the new reserves. On failure the pool is left as it was.
    pub fn update_reserves_after_swap(
        &mut self,
        input_amount: u64,
        output_amount: u64,
        fee_amount: u64,
        input_is_base: bool,
        now: i64,
    ) -> (r: Result<(), PoolOddsError>)
        ensures
            match old(self).after_swap(input_amount, output_amount, fee_amount, input_is_base, now) {
                Ok(next) => r == Ok::<(), PoolOddsError>(()) && *final(self) == next,
                Err(e) => r == Err::<(), PoolOddsError>(e) && *final(self) == *old(self),
            },
    {
        let (input_reserve, output_reserve) = if input_is_base {
            (self.base_reserves, self.share_reserves)
        } else {
            (self.share_reserves, self.base_reserves)
        };
        let new_output: u64 = match output_reserve.checked_sub(output_amount) {
            Some(v) => v,
            None => {
                return Err(PoolOddsError::InsufficientLiquidity);
            },
        };
        let new_input: u64 = match input_reserve.checked_add(input_amount) {
            Some(v) => v,
            None => {
                return Err(PoolOddsError::MathOverflow);
            },
        };
        let fees_collected: u64 = match self.fees_collected.checked_add(fee_amount) {
            Some(v) => v,
            None => {
                return Err(PoolOddsError::MathOverflow);
            },
        };
        let volume: u64 = match self.volume.checked_add(input_amount) {
            Some(v) => v,
            None => {
                return Err(PoolOddsError::MathOverflow);
            },
        };
        let (base_reserves, share_reserves) = if input_is_base {
            (new_input, new_output)
        } else {
            (new_output, new_input)
        };
        let current_price: u64 = if share_reserves == 0 {
            1_000_000
        } else {
            match mul_div(base_reserves, 1_000_000, share_reserves) {
                Ok(v) => v,
                Err(e) => {
                    return Err(e);
                },
            }
        };
        self.base_reserves = base_reserves;
        self.share_reserves = share_reserves;
        self.fees_collected = fees_collected;
        self.volume = volume;
        self.current_price = current_price;
        self.last_update = now;
        Ok(())
    }

    /// The constant product of a pool: base reserve times share reserve.
    pub open spec fn product(&self) -> nat {
        (self.base_reserves * self.share_reserves) as nat
    }

    /// Conservation: booking a swap at its own quote, or at anything less,
    /// never lowers the product of the reserves, whatever fee is recorded.
    pub proof fn lemma_swap_conserves_product(
        pool: Pool,
        input_amount: u64,
        output_amount: u64,
        fee_amount: u64,
        input_is_base: bool,
        now: i64,
    )
        requires
            pool.swap_output(input_amount, input_is_base) is Ok,
            output_amount <= pool.swap_output(input_amount, input_is_base)->Ok_0,
            pool.after_swap(input_amount, output_amount, fee_amount, input_is_base, now) is Ok,
        ensures
            pool.after_swap(
                input_amount,
                output_amount,
                fee_amount,
                input_is_base,
                now,
            )->Ok_0.product() >= pool.product(),
    {
        let x = pool.input_reserve(input_is_base) as int;
        let y = pool.output_reserve(input_is_base) as int;
        let fee = fee_on(input_amount, pool.fee_rate) as int;
        let dx = input_amount as int;
        let net = dx - fee;
        let quote = pool.swap_output(input_amount, input_is_base)->Ok_0 as int;
        let dy = output_amount as int;
        let next = pool.after_swap(input_amount, output_amount, fee_amount, input_is_base, now)->Ok_0;
        lemma_output_within_reserve(x as nat, y as nat, net as nat);
        assert(quote == y * net / (x + net));
        assert(quote * (x + net) <= y * net) by (nonlinear_arith)
            requires
                x + net > 0,
                quote == y * net / (x + net),
        ;
        assert((x + dx) * (y - dy) >= x * y) by (nonlinear_arith)
            requires
                quote * (x + net) <= y * net,
                0 <= dy <= quote,
                0 <= net <= dx,
                x > 0,
                y >= quote,
        ;
        if input_is_base {
            assert(next.base_reserves == x + dx);
            assert(next.share_reserves == y - dy);
        } else {
            assert(next.share_reserves == x + dx);
            assert(next.base_reserves == y - dy);
            assert((y - dy) * (x + dx) == (x + dx) * (y - dy)) by (nonlinear_arith);
            assert(y * x == x * y) by (nonlinear_arith);
        }
    }

    /// No reserve goes negative: a swap that would pay out more than the
    /// output reserve holds fails with `InsufficientLiquidity`, whatever else
    /// is wrong with it.
    pub proof fn lemma_overdrawn_swap_fails(
        pool: Pool,
        input_amount: u64,
        output_amount: u64,
        fee_amount: u64,
        input_is_base: bool,
        now: i64,
    )
        requires
            output_amount > pool.output_reserve(input_is_base),
        ensures
            pool.after_swap(input_amount, output_amount, fee_amount, input_is_base, now) == Err::<
                Pool,
                PoolOddsError,
            >(PoolOddsError::InsufficientLiquidity),
    {
    }

    /// A swap that is booked moves exactly the input into one reserve and
    /// the output out of the other, which held at least that much.
    pub proof fn lemma_booked_swap_moves_reserves(
        pool: Pool,
        input_amount: u64,
        output_amount: u64,
        fee_amount: u64,
        input_is_base: bool,
        now: i64,
    )
        requires
            pool.after_swap(input_amount, output_amount, fee_amount, input_is_base, now) is Ok,
        ensures
            ({
                let next = pool.after_swap(
                    input_amount,
                    output_amount,
                    fee_amount,
                    input_is_base,
                    now,
                )->Ok_0;
                &&& output_amount <= pool.output_reserve(input_is_base)
                &&& next.input_reserve(input_is_base) == pool.input_reserve(input_is_base)
                    + input_amount
                &&& next.output_reserve(input_is_base) == pool.output_reserve(input_is_base)
                    - output_amount
            }),
    {
    }
}

} // verus!
