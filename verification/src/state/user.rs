use vstd::prelude::*;
use crate::errors::PoolOddsError;
use crate::state::address::Address;

verus! {

/// Running totals of one trading identity.
#[derive(Clone, Copy, Debug)]
pub struct User {
    /// User wallet address
    pub authority: Address,
    /// Total number of markets created
    pub markets_created: u32,
    /// Total number of trades
    pub total_trades: u64,
    /// Total volume traded
    pub total_volume: u64,
    /// Total fees paid
    pub total_fees_paid: u64,
    /// Total fees earned (as LP)
    pub total_fees_earned: u64,
    /// Realized profit/loss across all positions
    pub total_realized_pnl: i64,
    /// User registration timestamp
    pub created_at: i64,
    /// Last activity timestamp
    pub last_activity: i64,
    /// Address bump seed
    pub bump: u8,
}

/// A 64-bit unsigned number read as a signed one in two's complement.
pub open spec fn reinterpret_signed(x: u64) -> int {
    if x <= i64::MAX {
        x as int
    } else {
        x - 0x1_0000_0000_0000_0000
    }
}

/// `x` held to the range of a signed 64-bit number.
pub open spec fn saturate(x: int) -> int {
    if x > i64::MAX {
        i64::MAX as int
    } else if x < i64::MIN {
        i64::MIN as int
    } else {
        x
    }
}

/// A 64-bit unsigned number read as a signed one in two's complement.
fn as_signed(x: u64) -> (r: i64)
    ensures
        r == reinterpret_signed(x),
{
    if x <= i64::MAX as u64 {
        x as i64
    } else {
        (x - 0x8000_0000_0000_0000) as i64 + i64::MIN
    }
}

/// Sum or difference of two signed numbers, held to the 64-bit range.
fn saturating(x: i128) -> (r: i64)
    ensures
        r == saturate(x as int),
{
    if x > i64::MAX as i128 {
        i64::MAX
    } else if x < i64::MIN as i128 {
        i64::MIN
    } else {
        x as i64
    }
}

impl User {
    /// The totals after one more trade of `volume` that paid `fees`.
    pub open spec fn after_trade(&self, volume: u64, fees: u64, now: i64) -> Result<
        User,
        PoolOddsError,
    > {
        if self.total_trades + 1 > u64::MAX || self.total_volume + volume > u64::MAX
            || self.total_fees_paid + fees > u64::MAX {
            Err(PoolOddsError::MathOverflow)
        } else {
            Ok(
                User {
                    total_trades: (self.total_trades + 1) as u64,
                    total_volume: (self.total_volume + volume) as u64,
                    total_fees_paid: (self.total_fees_paid + fees) as u64,
                    last_activity: now,
                    ..*self
                },
            )
        }
    }

    /// The totals after one more market was created.
    pub open spec fn after_market_creation(&self, now: i64) -> Result<User, PoolOddsError> {
        if self.markets_created + 1 > u32::MAX {
            Err(PoolOddsError::MathOverflow)
        } else {
            Ok(User { markets_created: (self.markets_created + 1) as u32, last_activity: now, ..*self })
        }
    }

    /// The totals after `fees` were earned as a liquidity provider.
    pub open spec fn after_fee_earning(&self, fees: u64, now: i64) -> Result<User, PoolOddsError> {
        if self.total_fees_earned + fees > u64::MAX {
            Err(PoolOddsError::MathOverflow)
        } else {
            Ok(
                User {
                    total_fees_earned: (self.total_fees_earned + fees) as u64,
                    last_activity: now,
                    ..*self
                },
            )
        }
    }

    /// Realized profit and loss plus fees earned less fees paid, each step
    /// held to the signed 64-bit range, the fee totals read as signed numbers.
    pub open spec fn net_pnl(&self) -> int {
        saturate(
            saturate(self.total_realized_pnl + reinterpret_signed(self.total_fees_earned))
                - reinterpret_signed(self.total_fees_paid),
        )
    }

    /// Counts one trade of `volume` that paid `fees`. On overflow nothing
    /// changes.
    pub fn update_after_trade(&mut self, volume: u64, fees: u64, now: i64) -> (r: Result<
        (),
        PoolOddsError,
    >)
        ensures
            match old(self).after_trade(volume, fees, now) {
                Ok(next) => r == Ok::<(), PoolOddsError>(()) && *final(self) == next,
                Err(e) => r == Err::<(), PoolOddsError>(e) && *final(self) == *old(self),
            },
    {
        let total_trades: u64 = match self.total_trades.checked_add(1) {
            Some(v) => v,
            None => {
                return Err(PoolOddsError::MathOverflow);
            },
        };
        let total_volume: u64 = match self.total_volume.checked_add(volume) {
            Some(v) => v,
            None => {
                return Err(PoolOddsError::MathOverflow);
            },
        };
        let total_fees_paid: u64 = match self.total_fees_paid.checked_add(fees) {
            Some(v) => v,
            None => {
                return Err(PoolOddsError::MathOverflow);
            },
        };
        self.total_trades = total_trades;
        self.total_volume = total_volume;
        self.total_fees_paid = total_fees_paid;
        self.last_activity = now;
        Ok(())
    }

    /// Counts one created market. On overflow nothing changes.
    pub fn update_after_market_creation(&mut self, now: i64) -> (r: Result<(), PoolOddsError>)
        ensures
            match old(self).after_market_creation(now) {
                Ok(next) => r == Ok::<(), PoolOddsError>(()) && *final(self) == next,
                Err(e) => r == Err::<(), PoolOddsError>(e) && *final(self) == *old(self),
            },
    {
        let markets_created: u32 = match self.markets_created.checked_add(1) {
            Some(v) => v,
            None => {
                return Err(PoolOddsError::MathOverflow);
            },
        };
        self.markets_created = markets_created;
        self.last_activity = now;
        Ok(())
    }

    /// Adds `fees` earned as a liquidity provider. On overflow nothing
    /// changes.
    pub fn update_after_fee_earning(&mut self, fees: u64, now: i64) -> (r: Result<
        (),
        PoolOddsError,
    >)
        ensures
            match old(self).after_fee_earning(fees, now) {
                Ok(next) => r == Ok::<(), PoolOddsError>(()) && *final(self) == next,
                Err(e) => r == Err::<(), PoolOddsError>(e) && *final(self) == *old(self),
            },
    {
        let total_fees_earned: u64 = match self.total_fees_earned.checked_add(fees) {
            Some(v) => v,
            None => {
                return Err(PoolOddsError::MathOverflow);
            },
        };
        self.total_fees_earned = total_fees_earned;
        self.last_activity = now;
        Ok(())
    }

    /// Net profit and loss of the identity.
    pub fn calculate_net_pnl(&self) -> (r: i64)
        ensures
            r == self.net_pnl(),
    {
        let with_earned: i64 = saturating(
            self.total_realized_pnl as i128 + as_signed(self.total_fees_earned) as i128,
        );
        saturating(with_earned as i128 - as_signed(self.total_fees_paid) as i128)
    }

    /// Whether the identity may create another market under a limit of
    /// `max_markets`.
    pub fn can_create_market(&self, max_markets: u32) -> (r: bool)
        ensures
            r == (self.markets_created < max_markets),
    {
        self.markets_created < max_markets
    }
}

} // verus!
