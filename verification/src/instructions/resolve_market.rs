use vstd::prelude::*;
use crate::constants::MAX_PRICE_AGE;
use crate::errors::PoolOddsError;
use crate::oracle::{
    oracle_outcome, price_update_decoding, read_price_update, spec_oracle_outcome, PriceRecord,
    VerificationLevel,
};
use crate::state::address::Address;
use crate::state::global_state::GlobalState;
use crate::state::market::{Market, MarketOutcome, MarketStatus, ResolutionSource};

verus! {

/// What a resolver hands in.
#[derive(Clone, Copy, Debug)]
pub struct ResolveMarketParams {
    /// The outcome, for a manually resolved market
    pub outcome: Option<MarketOutcome>,
}

/// An oracle's price update account: its address and its bytes.
#[derive(Clone, Debug)]
pub struct OracleAccount {
    pub key: Address,
    pub data: Vec<u8>,
}

/// The records that a resolution reads and writes.
#[derive(Clone, Debug)]
pub struct ResolveMarket {
    pub market: Market,
    pub resolver: Address,
    pub global_state: GlobalState,
    pub oracle_account: Option<OracleAccount>,
}

impl ResolveMarket {
    /// The price record in the oracle account handed in, if there is one.
    pub open spec fn decoded_price(&self) -> Option<PriceRecord> {
        match self.oracle_account {
            Some(account) => price_update_decoding(account.data@),
            None => None,
        }
    }

    /// The outcome that the resolution decides. An oracle market takes it
    /// from the price record `decoded` of its own oracle account; a manual
    /// market takes the outcome that the resolver names.
    pub open spec fn winning_outcome(
        &self,
        params: ResolveMarketParams,
        decoded: Option<PriceRecord>,
        now: i64,
    ) -> Result<MarketOutcome, PoolOddsError> {
        match self.market.resolution_source {
            ResolutionSource::Oracle => match self.oracle_account {
                None => Err(PoolOddsError::MissingOracleAccount),
                Some(account) => if Some(account.key) != self.market.oracle_account {
                    Err(PoolOddsError::InvalidOracleAccount)
                } else {
                    match decoded {
                        None => Err(PoolOddsError::InvalidOracleData),
                        Some(record) => spec_oracle_outcome(
                            record,
                            self.market.target_price.unwrap(),
                            now,
                        ),
                    }
                },
            },
            ResolutionSource::Manual => match params.outcome {
                None => Err(PoolOddsError::MissingOutcome),
                Some(outcome) => Ok(outcome),
            },
        }
    }

    /// Who may resolve the market: its creator and the protocol authority.
    pub open spec fn spec_is_authorized(&self) -> bool {
        self.resolver == self.market.creator || self.resolver == self.global_state.authority
    }

    /// The market after the resolution. Only a market that can be resolved at
    /// `now` is resolved. The resolver is taken to be authorized.
    pub open spec fn after_resolution(
        &self,
        params: ResolveMarketParams,
        decoded: Option<PriceRecord>,
        now: i64,
    ) -> Result<Market, PoolOddsError> {
        if !self.market.spec_can_resolve(now) {
            Err(PoolOddsError::CannotResolve)
        } else {
            match self.winning_outcome(params, decoded, now) {
                Err(e) => Err(e),
                Ok(outcome) => Ok(
                    Market {
                        status: MarketStatus::Resolved,
                        winning_outcome: Some(outcome),
                        resolved_at: Some(now),
                        ..self.market
                    },
                ),
            }
        }
    }

    /// Resolution is final: once a resolution has succeeded, every further
    /// attempt on the resolved market fails with `CannotResolve`, whoever
    /// makes it, whenever, and with whatever outcome or price.
    pub proof fn lemma_resolution_is_final(
        first: ResolveMarket,
        params: ResolveMarketParams,
        decoded: Option<PriceRecord>,
        now: i64,
        second: ResolveMarket,
        later_params: ResolveMarketParams,
        later_decoded: Option<PriceRecord>,
        later: i64,
    )
        requires
            first.after_resolution(params, decoded, now) is Ok,
            second.market == first.after_resolution(params, decoded, now)->Ok_0,
        ensures
            second.after_resolution(later_params, later_decoded, later) == Err::<
                Market,
                PoolOddsError,
            >(PoolOddsError::CannotResolve),
    {
    }

    /// Staleness: an expired oracle market is not resolved from a price that
    /// is more than `MAX_PRICE_AGE` seconds old, though it is fully verified
    /// and comes from the market's own oracle account; the attempt fails with
    /// `StalePriceData`.
    pub proof fn lemma_stale_price_is_refused(
        ctx: ResolveMarket,
        params: ResolveMarketParams,
        record: PriceRecord,
        now: i64,
    )
        requires
            ctx.market.status == MarketStatus::Active,
            ctx.market.resolution_source == ResolutionSource::Oracle,
            now >= ctx.market.end_time,
            ctx.oracle_account is Some,
            Some(ctx.oracle_account->Some_0.key) == ctx.market.oracle_account,
            record.verification_level == VerificationLevel::Full,
            now - record.publish_time > MAX_PRICE_AGE,
        ensures
            ctx.after_resolution(params, Some(record), now) == Err::<Market, PoolOddsError>(
                PoolOddsError::StalePriceData,
            ),
    {
    }

    /// Freshness: an expired oracle market is resolved from a fully verified
    /// price of its own oracle account that is at most `MAX_PRICE_AGE`
    /// seconds old: to Yes when the price has reached the target, else to No,
    /// with `now` as the time of resolution.
    pub proof fn lemma_fresh_price_resolves(
        ctx: ResolveMarket,
        params: ResolveMarketParams,
        record: PriceRecord,
        now: i64,
    )
        requires
            ctx.market.status == MarketStatus::Active,
            ctx.market.resolution_source == ResolutionSource::Oracle,
            ctx.market.target_price is Some,
            now >= ctx.market.end_time,
            ctx.oracle_account is Some,
            Some(ctx.oracle_account->Some_0.key) == ctx.market.oracle_account,
            record.verification_level == VerificationLevel::Full,
            now - record.publish_time <= MAX_PRICE_AGE,
        ensures
            ctx.after_resolution(params, Some(record), now) == Ok::<Market, PoolOddsError>(
                Market {
                    status: MarketStatus::Resolved,
                    winning_outcome: Some(
                        if record.price >= ctx.market.target_price->Some_0 {
                            MarketOutcome::Yes
                        } else {
                            MarketOutcome::No
                        },
                    ),
                    resolved_at: Some(now),
                    ..ctx.market
                },
            ),
    {
    }

    /// A resolved market cannot be resolved again.
    pub proof fn lemma_resolved_cannot_resolve(
        ctx: ResolveMarket,
        params: ResolveMarketParams,
        decoded: Option<PriceRecord>,
        now: i64,
    )
        requires
            ctx.market.status == MarketStatus::Resolved,
        ensures
            ctx.after_resolution(params, decoded, now) == Err::<Market, PoolOddsError>(
                PoolOddsError::CannotResolve,
            ),
    {
    }
}

/// Whether the resolver may resolve the market: `Unauthorized` unless it is
/// the market's creator or the protocol authority.
pub fn check_resolver(ctx: &ResolveMarket) -> (r: Result<(), PoolOddsError>)
    ensures
        ctx.spec_is_authorized() ==> r == Ok::<(), PoolOddsError>(()),
        !ctx.spec_is_authorized() ==> r == Err::<(), PoolOddsError>(PoolOddsError::Unauthorized),
{
    if ctx.resolver.same_as(&ctx.market.creator) || ctx.resolver.same_as(
        &ctx.global_state.authority,
    ) {
        Ok(())
    } else {
        Err(PoolOddsError::Unauthorized)
    }
}

/// Resolves the market at time `now`, given what the oracle account handed
/// in decodes to. On success the market is resolved with its winning outcome
/// and resolution time set; on failure nothing changes.
pub fn resolve_with(
    ctx: &mut ResolveMarket,
    params: ResolveMarketParams,
    decoded: Option<PriceRecord>,
    now: i64,
) -> (r: Result<(), PoolOddsError>)
    requires
        old(ctx).market.has_oracle_data(),
    ensures
        old(ctx).market.is_well_formed() ==> final(ctx).market.is_well_formed(),
        final(ctx).market.has_oracle_data(),
        final(ctx).resolver == old(ctx).resolver,
        final(ctx).global_state == old(ctx).global_state,
        final(ctx).oracle_account == old(ctx).oracle_account,
        match old(ctx).after_resolution(params, decoded, now) {
            Ok(market) => r == Ok::<(), PoolOddsError>(()) && final(ctx).market == market,
            Err(e) => r == Err::<(), PoolOddsError>(e) && final(ctx).market == old(ctx).market,
        },
{
    if !ctx.market.can_resolve(now) {
        return Err(PoolOddsError::CannotResolve);
    }
    let winning_outcome: MarketOutcome = match ctx.market.resolution_source {
        ResolutionSource::Oracle => {
            let key: Address = match &ctx.oracle_account {
                None => {
                    return Err(PoolOddsError::MissingOracleAccount);
                },
                Some(account) => account.key,
            };
            let expected: Address = match ctx.market.oracle_account {
                Some(expected) => expected,
                None => {
                    return Err(PoolOddsError::InvalidOracleAccount);
                },
            };
            if !key.same_as(&expected) {
                return Err(PoolOddsError::InvalidOracleAccount);
            }
            let record: PriceRecord = match decoded {
                None => {
                    return Err(PoolOddsError::InvalidOracleData);
                },
                Some(record) => record,
            };
            let target_price: u64 = match ctx.market.target_price {
                Some(target_price) => target_price,
                None => {
                    return Err(PoolOddsError::InvalidOracleData);
                },
            };
            oracle_outcome(&record, target_price, now)?
        },
        ResolutionSource::Manual => match params.outcome {
            None => {
                return Err(PoolOddsError::MissingOutcome);
            },
            Some(outcome) => outcome,
        },
    };
    ctx.market.status = MarketStatus::Resolved;
    ctx.market.winning_outcome = Some(winning_outcome);
    ctx.market.resolved_at = Some(now);
    Ok(())
}

/// Resolves the market at time `now`. An oracle market is decided by the
/// price update in the oracle account handed in, a manual market by the
/// outcome that the resolver names.
pub fn handler(ctx: &mut ResolveMarket, params: ResolveMarketParams, now: i64) -> (r: Result<
    (),
    PoolOddsError,
>)
    requires
        old(ctx).market.has_oracle_data(),
    ensures
        old(ctx).market.is_well_formed() ==> final(ctx).market.is_well_formed(),
        final(ctx).market.has_oracle_data(),
        final(ctx).resolver == old(ctx).resolver,
        final(ctx).global_state == old(ctx).global_state,
        final(ctx).oracle_account == old(ctx).oracle_account,
        match old(ctx).after_resolution(params, old(ctx).decoded_price(), now) {
            Ok(market) => r == Ok::<(), PoolOddsError>(()) && final(ctx).market == market,
            Err(e) => r == Err::<(), PoolOddsError>(e) && final(ctx).market == old(ctx).market,
        },
{
    let decoded: Option<PriceRecord> = match &ctx.oracle_account {
        Some(account) => read_price_update(account.data.as_slice()),
        None => None,
    };
    resolve_with(ctx, params, decoded, now)
}

} // verus!
