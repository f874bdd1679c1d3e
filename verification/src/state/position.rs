use vstd::prelude::*;
use crate::errors::PoolOddsError;
use crate::state::address::Address;
use crate::state::market::MarketOutcome;
use crate::utils::{mul_div, spec_mul_div};

verus! {

/// One trader's holding of one outcome's shares in one market.
#[derive(Clone, Copy, Debug)]
pub struct Position {
    /// Position owner
    pub owner: Address,
    /// Associated market
    pub market: Address,
    /// Position outcome (YES or NO)
    pub outcome: MarketOutcome,
    /// Number of shares owned
    pub shares: u64,
    /// Average entry price, in six-decimal fixed point
    pub average_price: u64,
    /// Cost basis attributed to the shares held
    pub total_invested: u64,
    /// Realized profit/loss
    pub realized_pnl: i64,
    /// Position creation timestamp
    pub created_at: i64,
    /// Last update timestamp
    pub last_update: i64,
    /// Address bump seed
    pub bump: u8,
}

impl Position {
    /// Cost basis that leaves the position when `shares_to_sell` shares are
    /// sold: their number times the average price, truncated.
    pub open spec fn cost_basis(&self, shares_to_sell: int) -> int {
        shares_to_sell * self.average_price / 1_000_000
    }

    /// The position after buying `shares_delta` shares for `amount`.
    pub open spec fn after_buy(&self, shares_delta: int, amount: u64, now: i64) -> Result<
        Position,
        PoolOddsError,
    > {
        let new_shares = self.shares + shares_delta;
        let new_total_invested = self.total_invested + amount;
        if new_shares > u64::MAX || new_total_invested * 1_000_000 > u64::MAX {
            Err(PoolOddsError::MathOverflow)
        } else {
            Ok(
                Position {
                    shares: new_shares as u64,
                    total_invested: new_total_invested as u64,
                    average_price: (new_total_invested * 1_000_000 / new_shares) as u64,
                    last_update: now,
                    ..*self
                },
            )
        }
    }

    /// The position after selling `shares_to_sell` shares for `amount`.
    pub open spec fn after_sell(&self, shares_to_sell: int, amount: u64, now: i64) -> Result<
        Position,
        PoolOddsError,
    > {
        let cost_basis = self.cost_basis(shares_to_sell);
        let realized = self.realized_pnl + amount - cost_basis;
        if shares_to_sell > self.shares {
            Err(PoolOddsError::InsufficientShares)
        } else if shares_to_sell * self.average_price > u64::MAX || amount > i64::MAX || realized
            > i64::MAX || realized < i64::MIN || cost_basis > self.total_invested {
            Err(PoolOddsError::MathOverflow)
        } else {
            Ok(
                Position {
                    shares: (self.shares - shares_to_sell) as u64,
                    total_invested: (self.total_invested - cost_basis) as u64,
                    realized_pnl: realized as i64,
                    last_update: now,
                    ..*self
                },
            )
        }
    }

    /// The position after a trade: a buy when `shares_delta` is positive,
    /// otherwise a sell of `-shares_delta` shares.
    pub open spec fn after_trade(&self, shares_delta: i64, amount: u64, now: i64) -> Result<
        Position,
        PoolOddsError,
    > {
        if shares_delta > 0 {
            self.after_buy(shares_delta as int, amount, now)
        } else {
            self.after_sell(-shares_delta, amount, now)
        }
    }

    /// Value of the shares held at `current_price`, less their cost basis.
    pub open spec fn unrealized_pnl(&self, current_price: u64) -> Result<i64, PoolOddsError> {
        if self.shares == 0 {
            Ok(0i64)
        } else if self.shares * current_price > u64::MAX || self.total_invested > i64::MAX {
            Err(PoolOddsError::MathOverflow)
        } else {
            Ok((self.shares * current_price / 1_000_000 - self.total_invested) as i64)
        }
    }

    /// Realized plus unrealized profit and loss at `current_price`.
    pub open spec fn total_pnl(&self, current_price: u64) -> Result<i64, PoolOddsError> {
        match self.unrealized_pnl(current_price) {
            Err(e) => Err(e),
            Ok(unrealized) => if self.realized_pnl + unrealized > i64::MAX || self.realized_pnl
                + unrealized < i64::MIN {
                Err(PoolOddsError::MathOverflow)
            } else {
                Ok((self.realized_pnl + unrealized) as i64)
            },
        }
    }

    /// Unrealized profit and loss at `current_price`; zero for an empty
    /// position.
    pub fn calculate_unrealized_pnl(&self, current_price: u64) -> (r: Result<i64, PoolOddsError>)
        ensures
            r == self.unrealized_pnl(current_price),
    {
        if self.shares == 0 {
            return Ok(0);
        }
        let current_value: u64 = mul_div(self.shares, current_price, 1_000_000)?;
        if self.total_invested > i64::MAX as u64 {
            return Err(PoolOddsError::MathOverflow);
        }
        Ok(current_value as i64 - self.total_invested as i64)
    }

    /// Applies one fill to the position. A buy adds the shares and the amount
    /// paid and recomputes the average price; a sell removes the shares with
    /// their cost basis and books the difference to realized profit and loss,
    /// leaving the average price as it was. `price` is the pool price at the
    /// fill and does not enter the books. On failure nothing changes.
    pub fn update_after_trade(&mut self, shares_delta: i64, price: u64, amount: u64, now: i64) -> (r:
        Result<(), PoolOddsError>)
        ensures
            match old(self).after_trade(shares_delta, amount, now) {
                Ok(next) => r == Ok::<(), PoolOddsError>(()) && *final(self) == next,
                Err(e) => r == Err::<(), PoolOddsError>(e) && *final(self) == *old(self),
            },
    {
        if shares_delta > 0 {
            let bought: u64 = shares_delta as u64;
            let new_shares: u64 = match self.shares.checked_add(bought) {
                Some(v) => v,
                None => {
                    return Err(PoolOddsError::MathOverflow);
                },
            };
            let new_total_invested: u64 = match self.total_invested.checked_add(amount) {
                Some(v) => v,
                None => {
                    return Err(PoolOddsError::MathOverflow);
                },
            };
            let average_price: u64 = match mul_div(new_total_invested, 1_000_000, new_shares) {
                Ok(v) => v,
                Err(_) => {
                    return Err(PoolOddsError::MathOverflow);
                },
            };
            self.average_price = average_price;
            self.shares = new_shares;
            self.total_invested = new_total_invested;
        } else {
            let shares_to_sell: u64 = (-(shares_delta as i128)) as u64;
            if self.shares < shares_to_sell {
                return Err(PoolOddsError::InsufficientShares);
            }
            let cost_basis: u64 = match mul_div(shares_to_sell, self.average_price, 1_000_000) {
                Ok(v) => v,
                Err(_) => {
                    return Err(PoolOddsError::MathOverflow);
                },
            };
            if amount > i64::MAX as u64 {
                return Err(PoolOddsError::MathOverflow);
            }
            let realized: i128 = self.realized_pnl as i128 + amount as i128 - cost_basis as i128;
            if realized > i64::MAX as i128 || realized < i64::MIN as i128 {
                return Err(PoolOddsError::MathOverflow);
            }
            if cost_basis > self.total_invested {
                return Err(PoolOddsError::MathOverflow);
            }
            self.realized_pnl = realized as i64;
            self.shares = self.shares - shares_to_sell;
            self.total_invested = self.total_invested - cost_basis;
        }
        self.last_update = now;
        Ok(())
    }

    /// Realized plus unrealized profit and loss at `current_price`.
    pub fn calculate_total_pnl(&self, current_price: u64) -> (r: Result<i64, PoolOddsError>)
        ensures
            r == self.total_pnl(current_price),
    {
        let unrealized_pnl: i64 = self.calculate_unrealized_pnl(current_price)?;
        match self.realized_pnl.checked_add(unrealized_pnl) {
            Some(total) => Ok(total),
            None => Err(PoolOddsError::MathOverflow),
        }
    }
}

/// One fill booked on a position: a buy when `shares_delta` is positive,
/// otherwise a sell; `amount` is what was paid or received.
pub struct Fill {
    pub shares_delta: i64,
    pub amount: u64,
    pub time: i64,
}

/// What the buys among `fills` cost in all.
pub open spec fn total_paid(fills: Seq<Fill>) -> int
    decreases fills.len(),
{
    if fills.len() == 0 {
        0
    } else if fills.last().shares_delta > 0 {
        total_paid(fills.drop_last()) + fills.last().amount
    } else {
        total_paid(fills.drop_last())
    }
}

/// What the sells among `fills` brought in all.
pub open spec fn total_received(fills: Seq<Fill>) -> int
    decreases fills.len(),
{
    if fills.len() == 0 {
        0
    } else if fills.last().shares_delta > 0 {
        total_received(fills.drop_last())
    } else {
        total_received(fills.drop_last()) + fills.last().amount
    }
}

impl Position {
    /// The position after `fills` were booked in order; the first failure
    /// ends the sequence.
    pub open spec fn after_trades(&self, fills: Seq<Fill>) -> Result<Position, PoolOddsError>
        decreases fills.len(),
    {
        if fills.len() == 0 {
            Ok(*self)
        } else {
            match self.after_trades(fills.drop_last()) {
                Err(e) => Err(e),
                Ok(before) => before.after_trade(
                    fills.last().shares_delta,
                    fills.last().amount,
                    fills.last().time,
                ),
            }
        }
    }

    /// Every trade keeps the books balanced: realized profit and loss moves
    /// by what the trade received less what it paid, plus the change in cost
    /// basis.
    pub proof fn lemma_trade_balances(before: Position, shares_delta: i64, amount: u64, now: i64)
        requires
            before.after_trade(shares_delta, amount, now) is Ok,
        ensures
            ({
                let after = before.after_trade(shares_delta, amount, now)->Ok_0;
                after.realized_pnl - before.realized_pnl == (if shares_delta > 0 {
                    -(amount as int)
                } else {
                    amount as int
                }) + (after.total_invested - before.total_invested)
            }),
    {
    }

    /// Over any sequence of trades on one position, realized profit and loss
    /// grows by the proceeds received less the cost paid, plus the change in
    /// cost basis still attributed to shares held.
    pub proof fn lemma_ledger_balances(start: Position, fills: Seq<Fill>)
        requires
            start.after_trades(fills) is Ok,
        ensures
            ({
                let end = start.after_trades(fills)->Ok_0;
                end.realized_pnl - start.realized_pnl == total_received(fills) - total_paid(fills)
                    + (end.total_invested - start.total_invested)
            }),
        decreases fills.len(),
    {
        if fills.len() > 0 {
            let before = start.after_trades(fills.drop_last())->Ok_0;
            Self::lemma_ledger_balances(start, fills.drop_last());
            Self::lemma_trade_balances(
                before,
                fills.last().shares_delta,
                fills.last().amount,
                fills.last().time,
            );
        }
    }

    /// A position that starts and ends without cost basis has realized
    /// exactly the proceeds received less the cost paid.
    pub proof fn lemma_closed_position_realizes_proceeds_less_cost(
        start: Position,
        fills: Seq<Fill>,
    )
        requires
            start.total_invested == 0,
            start.after_trades(fills) is Ok,
            start.after_trades(fills)->Ok_0.total_invested == 0,
        ensures
            start.after_trades(fills)->Ok_0.realized_pnl - start.realized_pnl == total_received(
                fills,
            ) - total_paid(fills),
    {
        Self::lemma_ledger_balances(start, fills);
    }

    /// A sale of all shares leaves no cost basis exactly when the cost basis
    /// of the shares sold, at the average price, is the whole cost basis on
    /// the books.
    pub proof fn lemma_full_sale_clears_cost_basis_iff(before: Position, amount: u64, now: i64)
        requires
            before.after_sell(before.shares as int, amount, now) is Ok,
        ensures
            ({
                let after = before.after_sell(before.shares as int, amount, now)->Ok_0;
                &&& after.shares == 0
                &&& after.total_invested == 0 <==> before.cost_basis(before.shares as int)
                    == before.total_invested
            }),
    {
    }

    /// A position bought in one fill at a price that is exact in six
    /// decimals, and then sold whole, ends with no shares and no cost basis,
    /// and has realized the proceeds less the cost.
    pub proof fn lemma_exact_round_trip(
        start: Position,
        shares: i64,
        cost: u64,
        proceeds: u64,
        bought_at: i64,
        sold_at: i64,
    )
        requires
            start.shares == 0,
            start.total_invested == 0,
            shares > 0,
            (cost * 1_000_000) % (shares as int) == 0,
            start.after_trade(shares, cost, bought_at) is Ok,
            start.after_trade(shares, cost, bought_at)->Ok_0.after_trade(
                (-shares) as i64,
                proceeds,
                sold_at,
            ) is Ok,
        ensures
            ({
                let end = start.after_trade(shares, cost, bought_at)->Ok_0.after_trade(
                    (-shares) as i64,
                    proceeds,
                    sold_at,
                )->Ok_0;
                &&& end.shares == 0
                &&& end.total_invested == 0
                &&& end.realized_pnl == start.realized_pnl + proceeds - cost
            }),
    {
        let held = start.after_trade(shares, cost, bought_at)->Ok_0;
        let scaled = cost * 1_000_000;
        let n = shares as int;
        assert(held.average_price == scaled / n);
        assert((scaled / n) * n == scaled) by (nonlinear_arith)
            requires
                n > 0,
                scaled % n == 0,
        ;
        assert(n * held.average_price == cost * 1_000_000) by (nonlinear_arith)
            requires
                held.average_price == scaled / n,
                (scaled / n) * n == scaled,
                scaled == cost * 1_000_000,
        ;
        assert(held.cost_basis(n) == cost);
    }
}

/// One liquidity provider's claim on one pool.
#[derive(Clone, Copy, Debug)]
pub struct LiquidityPosition {
    /// Position owner
    pub owner: Address,
    /// Associated pool
    pub pool: Address,
    /// LP tokens owned
    pub lp_tokens: u64,
    /// Base tokens of the first deposit
    pub initial_base_deposit: u64,
    /// Share tokens of the first deposit
    pub initial_share_deposit: u64,
    /// Fees earned
    pub fees_earned: u64,
    /// Position creation timestamp
    pub created_at: i64,
    /// Last update timestamp
    pub last_update: i64,
    /// Address bump seed
    pub bump: u8,
}

/// Part of `reserve` that `lp_tokens` out of `lp_supply` claims, truncated.
pub open spec fn redeemable(reserve: nat, lp_tokens: nat, lp_supply: nat) -> nat {
    if lp_supply == 0 {
        0
    } else {
        reserve * lp_tokens / lp_supply
    }
}

/// Claim tokens that `holdings` add up to.
pub open spec fn total_tokens(holdings: Seq<nat>) -> nat
    decreases holdings.len(),
{
    if holdings.len() == 0 {
        0
    } else {
        total_tokens(holdings.drop_last()) + holdings.last()
    }
}

/// What the holders of `holdings` can redeem of `reserve` between them.
pub open spec fn total_redeemable(reserve: nat, holdings: Seq<nat>, lp_supply: nat) -> nat
    decreases holdings.len(),
{
    if holdings.len() == 0 {
        0
    } else {
        total_redeemable(reserve, holdings.drop_last(), lp_supply) + redeemable(
            reserve,
            holdings.last(),
            lp_supply,
        )
    }
}

/// When one holder's tokens change, the total changes by as much.
pub proof fn lemma_holding_change_moves_total(holdings: Seq<nat>, holder: int, held_after: nat)
    requires
        0 <= holder < holdings.len(),
    ensures
        total_tokens(holdings.update(holder, held_after)) == total_tokens(holdings)
            - holdings[holder] + held_after,
    decreases holdings.len(),
{
    let changed = holdings.update(holder, held_after);
    if holder == holdings.len() - 1 {
        assert(changed.drop_last() =~= holdings.drop_last());
    } else {
        assert(changed.drop_last() =~= holdings.drop_last().update(holder, held_after));
        lemma_holding_change_moves_total(holdings.drop_last(), holder, held_after);
    }
}

/// The holdings of a pool's liquidity providers keep adding up to the
/// pool's supply: a deposit or withdrawal moves one holding and the supply by
/// the same number of tokens, and a new provider's first holding joins the
/// total.
pub proof fn lemma_supply_tracks_holdings(
    holdings: Seq<nat>,
    lp_supply: nat,
    holder: int,
    held_after: nat,
    supply_after: nat,
)
    requires
        total_tokens(holdings) == lp_supply,
        0 <= holder <= holdings.len(),
        holder < holdings.len() ==> supply_after - lp_supply == held_after - holdings[holder],
        holder == holdings.len() ==> supply_after - lp_supply == held_after,
    ensures
        holder < holdings.len() ==> total_tokens(holdings.update(holder, held_after))
            == supply_after,
        holder == holdings.len() ==> total_tokens(holdings.push(held_after)) == supply_after,
{
    if holder < holdings.len() {
        lemma_holding_change_moves_total(holdings, holder, held_after);
    } else {
        assert(holdings.push(held_after).drop_last() =~= holdings);
    }
}

/// Truncation loses less than one unit on each claim: the claims of any
/// holdings, scaled by the supply, lie within one supply per holder of the
/// reserve scaled by the tokens held.
pub proof fn lemma_claims_bracket_share(reserve: nat, holdings: Seq<nat>, lp_supply: nat)
    requires
        lp_supply > 0,
    ensures
        total_redeemable(reserve, holdings, lp_supply) * lp_supply <= reserve * total_tokens(
            holdings,
        ),
        reserve * total_tokens(holdings) <= (total_redeemable(reserve, holdings, lp_supply)
            + holdings.len()) * lp_supply,
        holdings.len() > 0 ==> reserve * total_tokens(holdings) < (total_redeemable(
            reserve,
            holdings,
            lp_supply,
        ) + holdings.len()) * lp_supply,
    decreases holdings.len(),
{
    if holdings.len() == 0 {
        assert(reserve * 0 == 0) by (nonlinear_arith);
        assert(0 * lp_supply == 0) by (nonlinear_arith);
    } else {
        let rest = holdings.drop_last();
        let held = holdings.last();
        let claimed_rest = total_redeemable(reserve, rest, lp_supply);
        let tokens_rest = total_tokens(rest);
        let claim = redeemable(reserve, held, lp_supply);
        let count = rest.len();
        lemma_claims_bracket_share(reserve, rest, lp_supply);
        assert(claim * lp_supply <= reserve * held && reserve * held < (claim + 1) * lp_supply)
            by (nonlinear_arith)
            requires
                lp_supply > 0,
                claim == reserve * held / lp_supply,
        ;
        assert((claimed_rest + claim) * lp_supply <= reserve * (tokens_rest + held))
            by (nonlinear_arith)
            requires
                claimed_rest * lp_supply <= reserve * tokens_rest,
                claim * lp_supply <= reserve * held,
        ;
        assert(reserve * (tokens_rest + held) < (claimed_rest + claim + (count + 1)) * lp_supply)
            by (nonlinear_arith)
            requires
                reserve * tokens_rest <= (claimed_rest + count) * lp_supply,
                reserve * held < (claim + 1) * lp_supply,
        ;
    }
}

/// Proportionality: when the holdings of a pool's liquidity providers add up
/// to the pool's supply, what they can redeem between them never exceeds the
/// reserve, and falls short of it by less than one unit per provider.
pub proof fn lemma_claims_within_reserve(reserve: nat, holdings: Seq<nat>, lp_supply: nat)
    requires
        lp_supply > 0,
        total_tokens(holdings) == lp_supply,
    ensures
        total_redeemable(reserve, holdings, lp_supply) <= reserve,
        reserve < total_redeemable(reserve, holdings, lp_supply) + holdings.len(),
{
    lemma_claims_bracket_share(reserve, holdings, lp_supply);
    let claimed = total_redeemable(reserve, holdings, lp_supply);
    let count = holdings.len();
    assert(holdings.len() > 0) by {
        if holdings.len() == 0 {
            assert(total_tokens(holdings) == 0);
        }
    }
    assert(claimed <= reserve && reserve < claimed + count) by (nonlinear_arith)
        requires
            lp_supply > 0,
            claimed * lp_supply <= reserve * lp_supply,
            reserve * lp_supply < (claimed + count) * lp_supply,
    ;
}

/// While the holdings add up to no more than the supply, what their holders
/// can redeem between them never exceeds the reserve.
pub proof fn lemma_partial_claims_within_reserve(reserve: nat, holdings: Seq<nat>, lp_supply: nat)
    requires
        lp_supply > 0,
        total_tokens(holdings) <= lp_supply,
    ensures
        total_redeemable(reserve, holdings, lp_supply) <= reserve,
{
    lemma_claims_bracket_share(reserve, holdings, lp_supply);
    let claimed = total_redeemable(reserve, holdings, lp_supply);
    let tokens = total_tokens(holdings);
    assert(claimed <= reserve) by (nonlinear_arith)
        requires
            lp_supply > 0,
            tokens <= lp_supply,
            claimed * lp_supply <= reserve * tokens,
    ;
}

impl LiquidityPosition {
    /// The claim on both reserves, in checked 64-bit arithmetic: each is
    /// `redeemable` of its reserve.
    pub open spec fn current_value(
        &self,
        pool_base_reserves: u64,
        pool_share_reserves: u64,
        pool_lp_supply: u64,
    ) -> Result<(u64, u64), PoolOddsError> {
        if pool_lp_supply == 0 || self.lp_tokens == 0 {
            Ok((0u64, 0u64))
        } else if pool_base_reserves * self.lp_tokens > u64::MAX || pool_share_reserves
            * self.lp_tokens > u64::MAX {
            Err(PoolOddsError::MathOverflow)
        } else {
            Ok(
                (
                    redeemable(
                        pool_base_reserves as nat,
                        self.lp_tokens as nat,
                        pool_lp_supply as nat,
                    ) as u64,
                    redeemable(
                        pool_share_reserves as nat,
                        self.lp_tokens as nat,
                        pool_lp_supply as nat,
                    ) as u64,
                ),
            )
        }
    }

    /// Price at which the first deposit was made: base per share in
    /// six-decimal fixed point, 1.0 when no shares were deposited.
    pub open spec fn initial_price(&self) -> Result<u64, PoolOddsError> {
        if self.initial_share_deposit > 0 {
            spec_mul_div(self.initial_base_deposit, 1_000_000, self.initial_share_deposit)
        } else {
            Ok(1_000_000u64)
        }
    }

    /// What the first deposit would be worth had it been held: the base
    /// deposit scaled by `price_ratio` when the price has not fallen,
    /// otherwise the share deposit valued at `current_price`.
    pub open spec fn hold_value(&self, price_ratio: u64, current_price: u64) -> Result<
        u64,
        PoolOddsError,
    > {
        if price_ratio >= 1_000_000 {
            spec_mul_div(self.initial_base_deposit, price_ratio, 1_000_000)
        } else {
            spec_mul_div(self.initial_share_deposit, current_price, 1_000_000)
        }
    }

    /// Value of the claim in base tokens: the base part plus the share part
    /// valued at `current_price`.
    pub open spec fn claim_value(
        current_base_value: u64,
        current_share_value: u64,
        current_price: u64,
    ) -> Result<u64, PoolOddsError> {
        match spec_mul_div(current_share_value, current_price, 1_000_000) {
            Err(e) => Err(e),
            Ok(share_part) => if current_base_value + share_part > u64::MAX {
                Err(PoolOddsError::MathOverflow)
            } else {
                Ok((current_base_value + share_part) as u64)
            },
        }
    }

    /// Value of the claim less the value of holding the first deposit;
    /// negative when providing liquidity has lost against holding.
    pub open spec fn impermanent_loss(
        &self,
        current_base_value: u64,
        current_share_value: u64,
        current_price: u64,
    ) -> Result<i64, PoolOddsError> {
        match self.initial_price() {
            Err(e) => Err(e),
            Ok(initial_price) => match spec_mul_div(current_price, 1_000_000, initial_price) {
                Err(e) => Err(e),
                Ok(price_ratio) => match self.hold_value(price_ratio, current_price) {
                    Err(e) => Err(e),
                    Ok(hold) => match Self::claim_value(
                        current_base_value,
                        current_share_value,
                        current_price,
                    ) {
                        Err(e) => Err(e),
                        Ok(claim) => if claim > i64::MAX || hold > i64::MAX {
                            Err(PoolOddsError::MathOverflow)
                        } else {
                            Ok((claim - hold) as i64)
                        },
                    },
                },
            },
        }
    }

    /// The position's proportional claim on the pool's two reserves; nothing
    /// when the pool has issued no tokens or the position holds none.
    pub fn calculate_current_value(
        &self,
        pool_base_reserves: u64,
        pool_share_reserves: u64,
        pool_lp_supply: u64,
    ) -> (r: Result<(u64, u64), PoolOddsError>)
        ensures
            r == self.current_value(pool_base_reserves, pool_share_reserves, pool_lp_supply),
    {
        if pool_lp_supply == 0 || self.lp_tokens == 0 {
            return Ok((0, 0));
        }
        let base_value: u64 = match mul_div(pool_base_reserves, self.lp_tokens, pool_lp_supply) {
            Ok(v) => v,
            Err(e) => {
                return Err(e);
            },
        };
        let share_value: u64 = match mul_div(pool_share_reserves, self.lp_tokens, pool_lp_supply) {
            Ok(v) => v,
            Err(e) => {
                return Err(e);
            },
        };
        Ok((base_value, share_value))
    }

    /// Estimate of the impermanent loss of the position, for reporting.
    pub fn calculate_impermanent_loss(
        &self,
        current_base_value: u64,
        current_share_value: u64,
        current_price: u64,
    ) -> (r: Result<i64, PoolOddsError>)
        ensures
            r == self.impermanent_loss(current_base_value, current_share_value, current_price),
    {
        let initial_price: u64 = if self.initial_share_deposit > 0 {
            mul_div(self.initial_base_deposit, 1_000_000, self.initial_share_deposit)?
        } else {
            1_000_000
        };
        let price_ratio: u64 = mul_div(current_price, 1_000_000, initial_price)?;
        let hold_value: u64 = if price_ratio >= 1_000_000 {
            mul_div(self.initial_base_deposit, price_ratio, 1_000_000)?
        } else {
            mul_div(self.initial_share_deposit, current_price, 1_000_000)?
        };
        let share_part: u64 = mul_div(current_share_value, current_price, 1_000_000)?;
        let lp_value: u64 = match current_base_value.checked_add(share_part) {
            Some(v) => v,
            None => {
                return Err(PoolOddsError::MathOverflow);
            },
        };
        if lp_value > i64::MAX as u64 || hold_value > i64::MAX as u64 {
            return Err(PoolOddsError::MathOverflow);
        }
        Ok(lp_value as i64 - hold_value as i64)
    }
}

} // verus!
