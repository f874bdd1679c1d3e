use vstd::prelude::*;
use vstd::string::StringSliceAdditionalSpecFns;
use vstd::utf8::{decode_utf8, valid_utf8};
use crate::errors::PoolOddsError;
use crate::state::address::Address;
use crate::text::{field_text, read_field, without_trailing_nul, zero_padded};

verus! {

/// Where a market stands in its life. `Resolved` and `Cancelled` are final.
#[derive(Clone, Copy, Debug, PartialEq, Eq, Structural)]
pub enum MarketStatus {
    Active,
    Resolved,
    Cancelled,
}

/// One of the two outcomes of a market.
#[derive(Clone, Copy, Debug, PartialEq, Eq, Structural)]
pub enum MarketOutcome {
    Yes,
    No,
}

/// How a market's outcome is decided; fixed when the market is created.
#[derive(Clone, Copy, Debug, PartialEq, Eq, Structural)]
pub enum ResolutionSource {
    Oracle,
    Manual,
}

/// A binary-outcome prediction market.
#[derive(Clone, Copy, Debug)]
pub struct Market {
    /// Market creator
    pub creator: Address,
    /// Title, zero-padded to 64 bytes
    pub title: [u8; 64],
    /// Description, zero-padded to 128 bytes
    pub description: [u8; 128],
    /// Market category
    pub category: u8,
    /// Market status
    pub status: MarketStatus,
    /// Resolution source
    pub resolution_source: ResolutionSource,
    /// Oracle account for price feeds
    pub oracle_account: Option<Address>,
    /// Target price for oracle resolution
    pub target_price: Option<u64>,
    /// Market creation timestamp
    pub created_at: i64,
    /// Market end timestamp
    pub end_time: i64,
    /// Market resolution timestamp
    pub resolved_at: Option<i64>,
    /// Winning outcome (if resolved)
    pub winning_outcome: Option<MarketOutcome>,
    /// YES pool account
    pub yes_pool: Address,
    /// NO pool account
    pub no_pool: Address,
    /// Base token mint
    pub base_token_mint: Address,
    /// YES share token mint
    pub yes_share_mint: Address,
    /// NO share token mint
    pub no_share_mint: Address,
    /// Market fee rate (basis points)
    pub fee_rate: u16,
    /// Total volume traded
    pub total_volume: u64,
    /// Total liquidity provided
    pub total_liquidity: u64,
    /// Creator bond amount
    pub bond_amount: u64,
    /// Number of traders
    pub trader_count: u32,
    /// Number of liquidity providers
    pub lp_count: u32,
    /// Address bump seed
    pub bump: u8,
}

impl Market {
    /// What holds of every market that came from market creation and the
    /// operations on it: it ends after it began, an oracle market names its
    /// oracle and target, and the outcome and resolution time are recorded
    /// exactly when the market is resolved.
    pub open spec fn is_well_formed(&self) -> bool {
        &&& self.end_time > self.created_at
        &&& self.spec_has_oracle_data()
        &&& self.winning_outcome.is_some() <==> self.status == MarketStatus::Resolved
        &&& self.resolved_at.is_some() <==> self.status == MarketStatus::Resolved
    }

    /// An oracle market names its oracle account and its target price.
    pub open spec fn spec_has_oracle_data(&self) -> bool {
        self.resolution_source == ResolutionSource::Oracle ==> self.oracle_account.is_some()
            && self.target_price.is_some()
    }

    pub open spec fn spec_is_expired(&self, current_time: i64) -> bool {
        current_time >= self.end_time
    }

    pub open spec fn spec_can_trade(&self, current_time: i64) -> bool {
        self.status == MarketStatus::Active && current_time < self.end_time
    }

    pub open spec fn spec_can_resolve(&self, current_time: i64) -> bool {
        self.status == MarketStatus::Active && (current_time >= self.end_time
            || self.resolution_source == ResolutionSource::Manual)
    }

    /// Whether the market is well-formed.
    pub fn check_well_formed(&self) -> (r: bool)
        ensures
            r == self.is_well_formed(),
    {
        let resolved: bool = self.status == MarketStatus::Resolved;
        self.end_time > self.created_at && self.has_oracle_data()
            && self.winning_outcome.is_some() == resolved && self.resolved_at.is_some()
            == resolved
    }

    /// Whether the market, if its oracle decides it, names its oracle
    /// account and its target price.
    #[verifier::when_used_as_spec(spec_has_oracle_data)]
    pub fn has_oracle_data(&self) -> (r: bool)
        ensures
            r == self.spec_has_oracle_data(),
    {
        self.resolution_source != ResolutionSource::Oracle || (self.oracle_account.is_some()
            && self.target_price.is_some())
    }

    pub fn is_active(&self) -> (r: bool)
        ensures
            r == (self.status == MarketStatus::Active),
    {
        self.status == MarketStatus::Active
    }

    pub fn is_resolved(&self) -> (r: bool)
        ensures
            r == (self.status == MarketStatus::Resolved),
    {
        self.status == MarketStatus::Resolved
    }

    /// Whether the market's end time has been reached at `current_time`.
    #[verifier::when_used_as_spec(spec_is_expired)]
    pub fn is_expired(&self, current_time: i64) -> (r: bool)
        ensures
            r == self.spec_is_expired(current_time),
    {
        current_time >= self.end_time
    }

    /// Trading is open while the market is active and has not reached its end.
    #[verifier::when_used_as_spec(spec_can_trade)]
    pub fn can_trade(&self, current_time: i64) -> (r: bool)
        ensures
            r == self.spec_can_trade(current_time),
    {
        self.is_active() && !self.is_expired(current_time)
    }

    /// An active market can be resolved once it has reached its end; a
    /// manually resolved one at any time.
    #[verifier::when_used_as_spec(spec_can_resolve)]
    pub fn can_resolve(&self, current_time: i64) -> (r: bool)
        ensures
            r == self.spec_can_resolve(current_time),
    {
        self.is_active() && (self.is_expired(current_time) || self.resolution_source
            == ResolutionSource::Manual)
    }

    /// Stores a title of at most 64 bytes, zero-padded; a longer one is
    /// rejected and the market is left as it was.
    pub fn set_title(&mut self, title: &str) -> (r: Result<(), PoolOddsError>)
        ensures
            title.spec_bytes().len() > 64 ==> r == Err::<(), PoolOddsError>(
                PoolOddsError::TitleTooLong,
            ) && *final(self) == *old(self),
            title.spec_bytes().len() <= 64 ==> r == Ok::<(), PoolOddsError>(())
                && final(self).title@ == zero_padded(title.spec_bytes(), 64) && *final(self) == (
            Market { title: final(self).title, ..*old(self) }),
    {
        let title_bytes = title.as_bytes();
        let n: usize = title_bytes.len();
        if n > 64 {
            return Err(PoolOddsError::TitleTooLong);
        }
        let mut buffer: [u8; 64] = [0u8; 64];
        let mut i: usize = 0;
        while i < n
            invariant
                i <= n <= 64,
                n == title_bytes@.len(),
                forall|k: int| 0 <= k < i ==> buffer@[k] == title_bytes@[k],
                forall|k: int| i <= k < 64 ==> buffer@[k] == 0,
            decreases n - i,
        {
            buffer[i] = title_bytes[i];
            i += 1;
        }
        assert(buffer@ =~= zero_padded(title.spec_bytes(), 64));
        self.title = buffer;
        Ok(())
    }

    /// Stores a description of at most 128 bytes, zero-padded; a longer one
    /// is rejected and the market is left as it was.
    pub fn set_description(&mut self, description: &str) -> (r: Result<(), PoolOddsError>)
        ensures
            description.spec_bytes().len() > 128 ==> r == Err::<(), PoolOddsError>(
                PoolOddsError::DescriptionTooLong,
            ) && *final(self) == *old(self),
            description.spec_bytes().len() <= 128 ==> r == Ok::<(), PoolOddsError>(())
                && final(self).description@ == zero_padded(description.spec_bytes(), 128)
                && *final(self) == (Market { description: final(self).description, ..*old(self) }),
    {
        let desc_bytes = description.as_bytes();
        let n: usize = desc_bytes.len();
        if n > 128 {
            return Err(PoolOddsError::DescriptionTooLong);
        }
        let mut buffer: [u8; 128] = [0u8; 128];
        let mut i: usize = 0;
        while i < n
            invariant
                i <= n <= 128,
                n == desc_bytes@.len(),
                forall|k: int| 0 <= k < i ==> buffer@[k] == desc_bytes@[k],
                forall|k: int| i <= k < 128 ==> buffer@[k] == 0,
            decreases n - i,
        {
            buffer[i] = desc_bytes[i];
            i += 1;
        }
        assert(buffer@ =~= zero_padded(description.spec_bytes(), 128));
        self.description = buffer;
        Ok(())
    }

    /// The title as text, without its padding.
    pub fn get_title(&self) -> (r: String)
        ensures
            r@ == field_text(self.title@),
            valid_utf8(self.title@) ==> r@ == without_trailing_nul(decode_utf8(self.title@)),
    {
        read_field(self.title.as_slice())
    }

    /// The description as text, without its padding.
    pub fn get_description(&self) -> (r: String)
        ensures
            r@ == field_text(self.description@),
            valid_utf8(self.description@) ==> r@ == without_trailing_nul(
                decode_utf8(self.description@),
            ),
    {
        read_field(self.description.as_slice())
    }
}

} // verus!
