use vstd::prelude::*;

use crate::address::Address;
use crate::error::VaultError;

verus! {

/// Length of one lock year: 365 days, in seconds.
pub const SECONDS_PER_YEAR: i64 = 365 * 24 * 60 * 60;

/// The lock terms that a stake may be opened for.
pub open spec fn valid_period(stake_years: u8) -> bool {
    1 <= stake_years <= 2
}

/// How long a stake of the given term stays locked, in seconds.
pub open spec fn lock_duration(stake_years: u8) -> int {
    stake_years as int * SECONDS_PER_YEAR as int
}

/// The payout factor of a term: twice the principal after two years, the
/// principal alone otherwise.
pub open spec fn multiplier_of(stake_years: u8) -> u8 {
    if stake_years == 2 {
        2
    } else {
        1
    }
}

/// What a position pays out at withdrawal, before any bound is applied.
pub open spec fn payout_of(amount: u64, stake_years: u8) -> int {
    amount as int * multiplier_of(stake_years) as int
}

/// One user's deposit into a vault, with its lock term and withdrawal state.
#[derive(Clone, Copy, Debug)]
pub struct UserStake {
    pub user: Address,
    pub amount: u64,
    pub stake_years: u8,
    pub stake_time: i64,
    pub unlock_time: i64,
    pub is_withdrawn: bool,
    pub bump: u8,
}

/// The position recorded when `user` stakes `amount` for `stake_years` at
/// `current_time`; its unlock time is only meaningful where it fits an `i64`.
pub open spec fn opened_stake(
    user: Address,
    amount: u64,
    stake_years: u8,
    current_time: i64,
    bump: u8,
) -> UserStake {
    UserStake {
        user,
        amount,
        stake_years,
        stake_time: current_time,
        unlock_time: (current_time + lock_duration(stake_years)) as i64,
        is_withdrawn: false,
        bump,
    }
}

/// Whether the unlock time of a stake opened at `current_time` fits an `i64`.
pub open spec fn unlock_fits(current_time: i64, stake_years: u8) -> bool {
    current_time + lock_duration(stake_years) <= i64::MAX
}

/// Why a position may not be paid out at `current_time`, if it may not.
pub open spec fn unlock_error(stake: UserStake, current_time: i64) -> Option<VaultError> {
    if stake.is_withdrawn {
        Some(VaultError::AlreadyWithdrawn)
    } else if current_time < stake.unlock_time {
        Some(VaultError::StillLocked)
    } else {
        None
    }
}

impl UserStake {
    /// Whether the position, once created, keeps its documented shape: a
    /// positive principal, a term of one or two years, and an unlock time
    /// that is the stake time plus the term.
    pub open spec fn well_formed(&self) -> bool {
        &&& self.amount > 0
        &&& valid_period(self.stake_years)
        &&& self.unlock_time == self.stake_time + lock_duration(self.stake_years)
    }

    /// Fills in a fresh position; fails with `MathOverflow`, leaving the
    /// position as it was, where the unlock time does not fit an `i64`.
    pub fn create_stake(
        &mut self,
        user: Address,
        amount: u64,
        stake_years: u8,
        current_time: i64,
        bump: u8,
    ) -> (r: Result<(), VaultError>)
        ensures
            r is Ok <==> unlock_fits(current_time, stake_years),
            r is Ok ==> *final(self) == opened_stake(user, amount, stake_years, current_time, bump),
            r is Err ==> r == Err::<(), VaultError>(VaultError::MathOverflow) && *final(self) == *old(self),
    {
        proof {
            assert(stake_years as int * 31_536_000 <= 255 * 31_536_000) by (nonlinear_arith)
                requires
                    stake_years <= 255,
            ;
        }
        let lock_duration: i64 = (stake_years as i64) * SECONDS_PER_YEAR;
        match current_time.checked_add(lock_duration) {
            None => Err(VaultError::MathOverflow),
            Some(unlock_time) => {
                self.user = user;
                self.amount = amount;
                self.stake_years = stake_years;
                self.stake_time = current_time;
                self.unlock_time = unlock_time;
                self.is_withdrawn = false;
                self.bump = bump;
                Ok(())
            },
        }
    }

    /// Succeeds exactly when the position has not been paid out and its
    /// unlock time has come.
    pub fn check_if_unlocked(&self, current_time: i64) -> (r: Result<(), VaultError>)
        ensures
            r is Ok <==> unlock_error(*self, current_time) is None,
            r is Err ==> r == Err::<(), VaultError>(unlock_error(*self, current_time).unwrap()),
    {
        if self.is_withdrawn {
            return Err(VaultError::AlreadyWithdrawn);
        }
        if current_time < self.unlock_time {
            return Err(VaultError::StillLocked);
        }
        Ok(())
    }

    /// The principal times the term's multiplier; `MathOverflow` where that
    /// product does not fit a `u64`.
    pub fn calculate_total_return(&self) -> (r: Result<u64, VaultError>)
        ensures
            r is Ok <==> payout_of(self.amount, self.stake_years) <= u64::MAX,
            r matches Ok(v) ==> v == payout_of(self.amount, self.stake_years),
            r is Err ==> r == Err::<u64, VaultError>(VaultError::MathOverflow),
    {
        let multiplier = self.get_multiplier();
        match self.amount.checked_mul(multiplier as u64) {
            Some(v) => Ok(v),
            None => Err(VaultError::MathOverflow),
        }
    }

    /// The payout factor of this position's term.
    pub fn get_multiplier(&self) -> (r: u8)
        ensures
            r == multiplier_of(self.stake_years),
    {
        match self.stake_years {
            1 => 1,
            2 => 2,
            _ => 1,
        }
    }

    /// Records the payout; nothing else about the position changes.
    pub fn mark_as_withdrawn(&mut self)
        ensures
            *final(self) == (UserStake { is_withdrawn: true, ..*old(self) }),
    {
        self.is_withdrawn = true;
    }
}

} // verus!
