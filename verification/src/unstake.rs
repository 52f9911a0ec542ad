//! Releasing a staked asset.
//!
//! An asset may leave once it has been staked for the freeze period. Its
//! owner then earns points for the time it was staked and has one asset less
//! at stake. The caller reads the clock and, once the books are done, has the
//! asset thawed.

use vstd::prelude::*;

verus! {

/// Why an asset cannot be released.
#[derive(Clone, Copy, Debug, PartialEq, Eq, Structural)]
pub enum StakeError {
    /// The asset has not been staked for the whole freeze period.
    FreezePeriodNotPassed,
    /// The owner has nothing at stake.
    InvalidAsset,
}

/// The rules of the staking program.
#[derive(Clone, Copy, Debug, PartialEq, Eq, Structural)]
pub struct StakeConfig {
    /// Points earned for each second at stake.
    pub points_per_stake: u8,
    /// Seconds an asset has to stay at stake.
    pub freeze_period: u32,
}

/// The record of one staked asset.
#[derive(Clone, Copy, Debug, PartialEq, Eq, Structural)]
pub struct StakeAccount {
    /// When the asset was staked, in seconds since the epoch.
    pub staked_at: i64,
}

/// What an owner has earned and has at stake.
#[derive(Clone, Copy, Debug, PartialEq, Eq, Structural)]
pub struct UserAccount {
    pub points: u32,
    pub amount_staked: u8,
}

/// Everything the release of one asset reads and writes.
#[derive(Clone, Copy, Debug, PartialEq, Eq, Structural)]
pub struct Unstake {
    pub stake_account: StakeAccount,
    pub user_account: UserAccount,
    pub config: StakeConfig,
}

/// `u32::saturating_mul` of the standard library: the product of the two
/// numbers, or `u32::MAX` where the product is larger than that.
pub assume_specification[ u32::saturating_mul ](x: u32, y: u32) -> (product: u32)
    ensures
        product == if x * y > u32::MAX {
            u32::MAX as int
        } else {
            x * y
        },
;

/// The points earned for `elapsed` seconds at stake: the seconds, counted in
/// 32 bits, times the rate, and no more than `u32::MAX`.
pub open spec fn points_earned(elapsed: int, points_per_stake: u8) -> int {
    let seconds = elapsed % 0x1_0000_0000;
    if seconds * points_per_stake > u32::MAX {
        u32::MAX as int
    } else {
        seconds * points_per_stake
    }
}

impl Unstake {
    /// The seconds from staking to `now`, if they fit in 64 bits.
    pub open spec fn elapsed(&self, now: i64) -> Option<int> {
        if i64::MIN <= now - self.stake_account.staked_at <= i64::MAX {
            Some(now - self.stake_account.staked_at)
        } else {
            None
        }
    }

    /// Whether the asset may leave at `now`, and if not, why.
    pub open spec fn unstake_outcome(&self, now: i64) -> Result<(), StakeError> {
        match self.elapsed(now) {
            None => Err(StakeError::FreezePeriodNotPassed),
            Some(elapsed) => if elapsed < self.config.freeze_period {
                Err(StakeError::FreezePeriodNotPassed)
            } else if self.user_account.amount_staked == 0 {
                Err(StakeError::InvalidAsset)
            } else {
                Ok(())
            },
        }
    }

    /// The books after a release at `now`: the points earned are added, up to
    /// `u32::MAX`, and one asset less is at stake.
    pub open spec fn released(&self, now: i64) -> Unstake {
        let earned = points_earned(now - self.stake_account.staked_at, self.config.points_per_stake);
        Unstake {
            stake_account: self.stake_account,
            user_account: UserAccount {
                points: if self.user_account.points + earned > u32::MAX {
                    u32::MAX
                } else {
                    (self.user_account.points + earned) as u32
                },
                amount_staked: (self.user_account.amount_staked - 1) as u8,
            },
            config: self.config,
        }
    }

    /// Releases the asset at the time `now`, in seconds since the epoch.
    ///
    /// Either the release is refused and nothing changes, or the books are
    /// brought up to date in one step.
    pub fn unstake(&mut self, now: i64) -> (result: Result<(), StakeError>)
        ensures
            result == old(self).unstake_outcome(now),
            result is Err ==> *final(self) == *old(self),
            result is Ok ==> *final(self) == old(self).released(now),
    {
        let staked_at: i64 = self.stake_account.staked_at;
        let elapsed: i64 = match now.checked_sub(staked_at) {
            Some(elapsed) => elapsed,
            None => return Err(StakeError::FreezePeriodNotPassed),
        };
        if elapsed < self.config.freeze_period as i64 {
            return Err(StakeError::FreezePeriodNotPassed);
        }
        let amount_staked: u8 = match self.user_account.amount_staked.checked_sub(1) {
            Some(amount_staked) => amount_staked,
            None => return Err(StakeError::InvalidAsset),
        };
        let seconds: u32 = ((elapsed as u64) % 0x1_0000_0000u64) as u32;
        let earned: u32 = seconds.saturating_mul(self.config.points_per_stake as u32);
        self.user_account.points = self.user_account.points.saturating_add(earned);
        self.user_account.amount_staked = amount_staked;
        Ok(())
    }
}

} // verus!
