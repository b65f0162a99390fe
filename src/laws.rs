use vstd::prelude::*;

use crate::address::Address;
use crate::book::{holds_user, stake_into, users_unique};
use crate::error::VaultError;
use crate::instructions::{
    stake_error, stake_outcome, withdraw_outcome, withdrawn, StakeCreatedEvent, StakeWithdrawnEvent,
};
use crate::stake::{lock_duration, multiplier_of, opened_stake, unlock_fits, valid_period, UserStake};

verus! {

/// A position opened with a positive amount for one or two years cannot be
/// paid out at any time before its unlock time, the opening moment included:
/// the withdrawal is refused with `StillLocked`, so no tokens leave custody.
pub proof fn lemma_locked_until_maturity(
    user: Address,
    amount: u64,
    stake_years: u8,
    current_time: i64,
    bump: u8,
    later: i64,
)
    requires
        amount > 0,
        valid_period(stake_years),
        unlock_fits(current_time, stake_years),
        later < current_time + lock_duration(stake_years),
    ensures
        stake_outcome(user, amount, stake_years, current_time) is Ok,
        withdraw_outcome(opened_stake(user, amount, stake_years, current_time, bump), user, later)
            == Err::<StakeWithdrawnEvent, VaultError>(
            VaultError::StillLocked,
        ),
{
}

/// Once its unlock time has come, the owner of a live, well-formed position is
/// paid exactly the principal times the term's multiplier and the position
/// becomes withdrawn; any later withdrawal is refused with
/// `AlreadyWithdrawn` and pays nothing.
pub proof fn lemma_single_payout_after_maturity(stake: UserStake, user: Address, at: i64, again: i64)
    requires
        stake.well_formed(),
        !stake.is_withdrawn,
        user@ == stake.user@,
        at >= stake.unlock_time,
        stake.amount * multiplier_of(stake.stake_years) <= u64::MAX,
    ensures
        withdraw_outcome(stake, user, at) matches Ok(ev) && ev.total_return == stake.amount
            * multiplier_of(stake.stake_years) && ev.original_amount == stake.amount,
        withdrawn(stake).is_withdrawn,
        withdraw_outcome(withdrawn(stake), user, again) == Err::<
            StakeWithdrawnEvent,
            VaultError,
        >(VaultError::AlreadyWithdrawn),
{
}

/// Of two stake requests by the same user in the same vault, where the user
/// holds no position yet and the first request is valid, the first opens the
/// position and the second is refused with `AlreadyExists`, leaving the
/// positions as the first left them.
pub proof fn lemma_one_stake_per_user(
    stakes: Seq<UserStake>,
    user: Address,
    amount: u64,
    stake_years: u8,
    current_time: i64,
    bump: u8,
    amount2: u64,
    stake_years2: u8,
    current_time2: i64,
    bump2: u8,
)
    requires
        users_unique(stakes),
        !holds_user(stakes, user@),
        stake_error(amount, stake_years, current_time) is None,
    ensures
        ({
            let (first, r1) = stake_into(stakes, user, amount, stake_years, current_time, bump);
            let (second, r2) = stake_into(
                first,
                user,
                amount2,
                stake_years2,
                current_time2,
                bump2,
            );
            &&& r1 is Ok
            &&& r2 == Err::<StakeCreatedEvent, VaultError>(
                VaultError::AlreadyExists,
            )
            &&& second == first
        }),
{
    let first = stakes.push(opened_stake(user, amount, stake_years, current_time, bump));
    assert(first[stakes.len() as int].user@ == user@);
    assert(holds_user(first, user@));
}

/// A signer other than the recorded owner is refused with `UnauthorizedUser`,
/// whether the position is locked, unlocked or already paid out.
pub proof fn lemma_foreign_signer_refused(stake: UserStake, user: Address, current_time: i64)
    requires
        user@ != stake.user@,
    ensures
        withdraw_outcome(stake, user, current_time) == Err::<
            StakeWithdrawnEvent,
            VaultError,
        >(VaultError::UnauthorizedUser),
{
}

} // verus!
