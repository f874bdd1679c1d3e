use vstd::prelude::*;
use anchor_lang::AccountDeserialize;
use pyth_solana_receiver_sdk::price_update;
use crate::constants::MAX_PRICE_AGE;
use crate::errors::PoolOddsError;
use crate::state::market::MarketOutcome;

verus! {

/// The error that account decoding reports.
#[verifier::external_type_specification]
#[verifier::external_body]
pub struct ExDecodeError(anchor_lang::error::Error);

/// How far the guardians' signatures on a price update were checked.
#[derive(Clone, Copy, Debug, PartialEq, Eq, Structural)]
pub enum VerificationLevel {
    /// Only `num_signatures` signatures were checked.
    Partial { num_signatures: u8 },
    /// Two thirds of the guardians' signatures were checked.
    Full,
}

/// What the market engine reads of an oracle price update.
#[derive(Clone, Copy, Debug, PartialEq, Eq, Structural)]
pub struct PriceRecord {
    pub price: i64,
    pub verification_level: VerificationLevel,
    /// Time of the price, in seconds
    pub publish_time: i64,
}

/// What the bytes of a price update account hold, if they hold a price
/// update at all.
pub uninterp spec fn price_update_decoding(data: Seq<u8>) -> Option<PriceRecord>;

/// Decodes the bytes of a price update account with
/// `PriceUpdateV2::try_deserialize` of the Pyth receiver SDK, which checks the
/// account discriminator and reads the fields in Borsh encoding. Not proved:
/// that the outcome depends on the bytes alone; `price_update_decoding` names
/// it.
#[verifier::external_body]
fn decode_price_update(data: &[u8]) -> (r: Result<PriceRecord, anchor_lang::error::Error>)
    ensures
        r is Ok <==> price_update_decoding(data@) is Some,
        r is Ok ==> price_update_decoding(data@) == Some(r->Ok_0),
{
    let mut buf: &[u8] = data;
    let update = price_update::PriceUpdateV2::try_deserialize(&mut buf)?;
    let verification_level = match update.verification_level {
        price_update::VerificationLevel::Partial { num_signatures } => {
            VerificationLevel::Partial { num_signatures }
        },
        price_update::VerificationLevel::Full => VerificationLevel::Full,
    };
    let price = update.price_message.price;
    let publish_time = update.price_message.publish_time;
    Ok(PriceRecord { price, verification_level, publish_time })
}

/// Reads a price record from the bytes of a price update account; `None`
/// when the bytes hold no price update.
pub fn read_price_update(data: &[u8]) -> (r: Option<PriceRecord>)
    ensures
        r == price_update_decoding(data@),
{
    match decode_price_update(data) {
        Ok(record) => Some(record),
        Err(_) => None,
    }
}

/// The outcome that a price record decides against `target_price` at time
/// `now`: Yes when the price has reached the target, else No. The record
/// must be fully verified and at most `MAX_PRICE_AGE` seconds old.
pub open spec fn spec_oracle_outcome(record: PriceRecord, target_price: u64, now: i64) -> Result<
    MarketOutcome,
    PoolOddsError,
> {
    if record.verification_level != VerificationLevel::Full {
        Err(PoolOddsError::InvalidOracleData)
    } else if now - record.publish_time > MAX_PRICE_AGE {
        Err(PoolOddsError::StalePriceData)
    } else if record.price >= target_price {
        Ok(MarketOutcome::Yes)
    } else {
        Ok(MarketOutcome::No)
    }
}

/// Decides the outcome of an oracle market from a price record.
pub fn oracle_outcome(record: &PriceRecord, target_price: u64, now: i64) -> (r: Result<
    MarketOutcome,
    PoolOddsError,
>)
    ensures
        r == spec_oracle_outcome(*record, target_price, now),
{
    match record.verification_level {
        VerificationLevel::Full => {},
        VerificationLevel::Partial { num_signatures: _ } => {
            return Err(PoolOddsError::InvalidOracleData);
        },
    }
    let age: i128 = now as i128 - record.publish_time as i128;
    if age > MAX_PRICE_AGE as i128 {
        return Err(PoolOddsError::StalePriceData);
    }
    if record.price >= 0 && record.price as u64 >= target_price {
        Ok(MarketOutcome::Yes)
    } else {
        Ok(MarketOutcome::No)
    }
}

} // verus!
