use vstd::prelude::*;

use crate::address::Address;
use crate::error::VaultError;
use crate::stake::{
    multiplier_of, opened_stake, payout_of, unlock_error, unlock_fits, valid_period, UserStake,
};
use crate::vault::Vault;

verus! {

/// What the vault creation reads: the fresh record, the signing
/// administrator and the nonce its address was derived with.
#[derive(Clone, Copy, Debug)]
pub struct CreateVault {
    pub vault: Vault,
    pub admin: Address,
    pub vault_bump: u8,
}

/// What a stake request reads: the vault, the fresh position record at the
/// address derived from (vault, user), the signing user, the nonce of that
/// address, and the time the request runs at.
#[derive(Clone, Copy, Debug)]
pub struct StakeTokens {
    pub vault: Vault,
    pub user_stake: UserStake,
    pub user: Address,
    pub user_stake_bump: u8,
    pub current_time: i64,
}

/// What a withdrawal reads: the vault, the recorded position, the signing
/// user and the time the request runs at.
#[derive(Clone, Copy, Debug)]
pub struct WithdrawStake {
    pub vault: Vault,
    pub user_stake: UserStake,
    pub user: Address,
    pub current_time: i64,
}

/// Announces a new position; the host moves `amount` tokens from the user's
/// account into the vault's custody account on its strength.
#[derive(Clone, Copy, Debug)]
pub struct StakeCreatedEvent {
    pub user: Address,
    pub amount: u64,
    pub stake_years: u8,
    pub unlock_time: i64,
}

/// Announces a payout; the host moves `total_return` tokens from custody to
/// the user, signed by the vault's derivation.
#[derive(Clone, Copy, Debug)]
pub struct StakeWithdrawnEvent {
    pub user: Address,
    pub original_amount: u64,
    pub total_return: u64,
    pub multiplier: u8,
}

/// Why a stake request is refused, if it is: the checks come in this order.
pub open spec fn stake_error(amount: u64, stake_years: u8, current_time: i64) -> Option<VaultError> {
    if amount == 0 {
        Some(VaultError::InvalidAmount)
    } else if !valid_period(stake_years) {
        Some(VaultError::InvalidStakePeriod)
    } else if !unlock_fits(current_time, stake_years) {
        Some(VaultError::MathOverflow)
    } else {
        None
    }
}

/// The answer to a stake request: the refusal, or the event of the new position.
pub open spec fn stake_outcome(
    user: Address,
    amount: u64,
    stake_years: u8,
    current_time: i64,
) -> Result<StakeCreatedEvent, VaultError> {
    match stake_error(amount, stake_years, current_time) {
        Some(e) => Err(e),
        None => Ok(
            StakeCreatedEvent {
                user,
                amount,
                stake_years,
                unlock_time: (current_time + crate::stake::lock_duration(stake_years)) as i64,
            },
        ),
    }
}

/// Why `user` may not withdraw `stake` at `current_time`, if they may not:
/// the owner check comes first, then the lock, then the payout's bound.
pub open spec fn withdraw_error(stake: UserStake, user: Address, current_time: i64) -> Option<
    VaultError,
> {
    if user@ != stake.user@ {
        Some(VaultError::UnauthorizedUser)
    } else if unlock_error(stake, current_time) is Some {
        unlock_error(stake, current_time)
    } else if payout_of(stake.amount, stake.stake_years) > u64::MAX {
        Some(VaultError::MathOverflow)
    } else {
        None
    }
}

/// The answer to a withdrawal: the refusal, or the event of the payout.
pub open spec fn withdraw_outcome(stake: UserStake, user: Address, current_time: i64) -> Result<
    StakeWithdrawnEvent,
    VaultError,
> {
    match withdraw_error(stake, user, current_time) {
        Some(e) => Err(e),
        None => Ok(
            StakeWithdrawnEvent {
                user,
                original_amount: stake.amount,
                total_return: payout_of(stake.amount, stake.stake_years) as u64,
                multiplier: multiplier_of(stake.stake_years),
            },
        ),
    }
}

/// The position once paid out.
pub open spec fn withdrawn(stake: UserStake) -> UserStake {
    UserStake { is_withdrawn: true, ..stake }
}

/// Creates the vault record of the signing administrator.
pub fn create_vault(ctx: &mut CreateVault)
    ensures
        *final(ctx) == (CreateVault {
            vault: Vault { admin: old(ctx).admin, bump: old(ctx).vault_bump },
            ..*old(ctx)
        }),
{
    let admin = ctx.admin;
    let bump = ctx.vault_bump;
    ctx.vault.initialize(admin, bump);
}

/// Opens the position of the signing user: the amount must be positive, the
/// term one or two years, and the unlock time must fit an `i64`. On success
/// the position is written and its event returned; on refusal nothing changes.
pub fn stake_tokens(ctx: &mut StakeTokens, amount: u64, stake_years: u8) -> (r: Result<
    StakeCreatedEvent,
    VaultError,
>)
    ensures
        r == stake_outcome(old(ctx).user, amount, stake_years, old(ctx).current_time),
        r is Ok ==> *final(ctx) == (StakeTokens {
            user_stake: opened_stake(
                old(ctx).user,
                amount,
                stake_years,
                old(ctx).current_time,
                old(ctx).user_stake_bump,
            ),
            ..*old(ctx)
        }),
        r is Ok ==> final(ctx).user_stake.well_formed(),
        r is Err ==> *final(ctx) == *old(ctx),
{
    if amount == 0 {
        return Err(VaultError::InvalidAmount);
    }
    if !(stake_years >= 1 && stake_years <= 2) {
        return Err(VaultError::InvalidStakePeriod);
    }
    let user = ctx.user;
    let current_time = ctx.current_time;
    let bump = ctx.user_stake_bump;
    match ctx.user_stake.create_stake(user, amount, stake_years, current_time, bump) {
        Err(e) => Err(e),
        Ok(()) => Ok(
            StakeCreatedEvent {
                user,
                amount,
                stake_years,
                unlock_time: ctx.user_stake.unlock_time,
            },
        ),
    }
}

/// Pays out the position of the signing user: the signer must own it, it
/// must not be paid out already, its unlock time must have come and the
/// payout must fit a `u64`. On success the position is marked withdrawn and
/// the payout's event returned; on refusal nothing changes.
pub fn withdraw_stake(ctx: &mut WithdrawStake) -> (r: Result<StakeWithdrawnEvent, VaultError>)
    ensures
        r == withdraw_outcome(old(ctx).user_stake, old(ctx).user, old(ctx).current_time),
        r is Ok ==> *final(ctx) == (WithdrawStake {
            user_stake: withdrawn(old(ctx).user_stake),
            ..*old(ctx)
        }),
        r is Err ==> *final(ctx) == *old(ctx),
{
    if !ctx.user_stake.user.same_as(&ctx.user) {
        return Err(VaultError::UnauthorizedUser);
    }
    if let Err(e) = ctx.user_stake.check_if_unlocked(ctx.current_time) {
        return Err(e);
    }
    let total_return = match ctx.user_stake.calculate_total_return() {
        Ok(v) => v,
        Err(e) => {
            return Err(e);
        },
    };
    ctx.user_stake.mark_as_withdrawn();
    let multiplier = ctx.user_stake.get_multiplier();
    Ok(
        StakeWithdrawnEvent {
            user: ctx.user,
            original_amount: ctx.user_stake.amount,
            total_return,
            multiplier,
        },
    )
}

} // verus!
