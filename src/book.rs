use vstd::prelude::*;

use crate::address::Address;
use crate::error::VaultError;
use crate::instructions::{
    stake_outcome, stake_tokens, withdraw_outcome, withdraw_stake, withdrawn, StakeCreatedEvent,
    StakeTokens, StakeWithdrawnEvent, WithdrawStake,
};
use crate::stake::{opened_stake, UserStake};
use crate::vault::Vault;

verus! {

/// Whether some position in `stakes` belongs to `user`.
pub open spec fn holds_user(stakes: Seq<UserStake>, user: Seq<u8>) -> bool {
    exists|i: int| 0 <= i < stakes.len() && #[trigger] stakes[i].user@ == user
}

/// At most one position per user.
pub open spec fn users_unique(stakes: Seq<UserStake>) -> bool {
    forall|i: int, j: int|
        0 <= i < stakes.len() && 0 <= j < stakes.len() && i != j ==> stakes[i].user@
            != stakes[j].user@
}

/// The positions and the answer after `user` asks to stake: a second position
/// for the same user is refused with `AlreadyExists` before anything else is
/// looked at; otherwise the request is judged as a single stake is.
pub open spec fn stake_into(
    stakes: Seq<UserStake>,
    user: Address,
    amount: u64,
    stake_years: u8,
    current_time: i64,
    bump: u8,
) -> (Seq<UserStake>, Result<StakeCreatedEvent, VaultError>) {
    if holds_user(stakes, user@) {
        (stakes, Err(VaultError::AlreadyExists))
    } else {
        let r = stake_outcome(user, amount, stake_years, current_time);
        if r is Ok {
            (stakes.push(opened_stake(user, amount, stake_years, current_time, bump)), r)
        } else {
            (stakes, r)
        }
    }
}

/// The index of `user`'s position, if there is one.
pub open spec fn index_of(stakes: Seq<UserStake>, user: Seq<u8>) -> int
    recommends
        holds_user(stakes, user),
{
    choose|i: int| 0 <= i < stakes.len() && #[trigger] stakes[i].user@ == user
}

/// The positions and the answer after `user` asks to withdraw: without a
/// position of their own the signer is refused with `UnauthorizedUser`;
/// otherwise their position is judged as a single withdrawal is.
pub open spec fn withdraw_from(stakes: Seq<UserStake>, user: Address, current_time: i64) -> (
    Seq<UserStake>,
    Result<StakeWithdrawnEvent, VaultError>,
) {
    if !holds_user(stakes, user@) {
        (stakes, Err(VaultError::UnauthorizedUser))
    } else {
        let i = index_of(stakes, user@);
        let r = withdraw_outcome(stakes[i], user, current_time);
        if r is Ok {
            (stakes.update(i, withdrawn(stakes[i])), r)
        } else {
            (stakes, r)
        }
    }
}

/// The positions of one vault, keyed by their owner: creating a position is
/// an insert that fails where the key is present, which makes a second stake
/// by the same user for the same vault impossible.
pub struct StakeBook {
    pub vault: Vault,
    pub stakes: Vec<UserStake>,
}

impl StakeBook {
    /// One position per user, each of the documented shape.
    pub open spec fn well_formed(&self) -> bool {
        &&& users_unique(self.stakes@)
        &&& forall|i: int| 0 <= i < self.stakes@.len() ==> (#[trigger] self.stakes@[i]).well_formed()
    }

    /// An empty book for `vault`.
    pub fn new(vault: Vault) -> (r: StakeBook)
        ensures
            r.well_formed(),
            r.vault == vault,
            r.stakes@ == Seq::<UserStake>::empty(),
    {
        StakeBook { vault, stakes: Vec::new() }
    }

    /// Where `user`'s position stands, if they have one.
    pub fn find(&self, user: &Address) -> (r: Option<usize>)
        requires
            self.well_formed(),
        ensures
            r is None <==> !holds_user(self.stakes@, user@),
            r matches Some(i) ==> i < self.stakes@.len() && i == index_of(self.stakes@, user@),
    {
        let mut i: usize = 0;
        while i < self.stakes.len()
            invariant
                0 <= i <= self.stakes@.len(),
                self.well_formed(),
                forall|k: int| 0 <= k < i ==> self.stakes@[k].user@ != user@,
            decreases self.stakes@.len() - i,
        {
            if self.stakes[i].user.same_as(user) {
                let ghost j = index_of(self.stakes@, user@);
                assert(self.stakes@[i as int].user@ == user@);
                assert(holds_user(self.stakes@, user@));
                assert(self.stakes@[j].user@ == user@);
                assert(j == i as int) by {
                    if j != i as int {
                        assert(self.stakes@[j].user@ != self.stakes@[i as int].user@);
                    }
                }
                return Some(i);
            }
            i = i + 1;
        }
        assert(!holds_user(self.stakes@, user@));
        None
    }

    /// Opens `user`'s position, unless they already have one in this vault.
    pub fn stake(
        &mut self,
        user: Address,
        amount: u64,
        stake_years: u8,
        current_time: i64,
        bump: u8,
    ) -> (r: Result<StakeCreatedEvent, VaultError>)
        requires
            old(self).well_formed(),
        ensures
            final(self).well_formed(),
            final(self).vault == old(self).vault,
            (final(self).stakes@, r) == stake_into(
                old(self).stakes@,
                user,
                amount,
                stake_years,
                current_time,
                bump,
            ),
    {
        if self.find(&user).is_some() {
            return Err(VaultError::AlreadyExists);
        }
        let mut ctx = StakeTokens {
            vault: self.vault,
            user_stake: UserStake {
                user,
                amount: 0,
                stake_years: 0,
                stake_time: 0,
                unlock_time: 0,
                is_withdrawn: false,
                bump: 0,
            },
            user,
            user_stake_bump: bump,
            current_time,
        };
        let r = stake_tokens(&mut ctx, amount, stake_years);
        if r.is_ok() {
            let ghost before = self.stakes@;
            self.stakes.push(ctx.user_stake);
            assert forall|i: int, j: int|
                0 <= i < self.stakes@.len() && 0 <= j < self.stakes@.len() && i != j implies
                self.stakes@[i].user@ != self.stakes@[j].user@ by {
                if i < before.len() && j < before.len() {
                } else if i == before.len() {
                    assert(!holds_user(before, user@));
                    assert(before[j].user@ == self.stakes@[j].user@);
                } else {
                    assert(!holds_user(before, user@));
                    assert(before[i].user@ == self.stakes@[i].user@);
                }
            }
        }
        r
    }

    /// Pays out `user`'s position, if they have one and it may be paid out.
    pub fn withdraw(&mut self, user: Address, current_time: i64) -> (r: Result<
        StakeWithdrawnEvent,
        VaultError,
    >)
        requires
            old(self).well_formed(),
        ensures
            final(self).well_formed(),
            final(self).vault == old(self).vault,
            (final(self).stakes@, r) == withdraw_from(old(self).stakes@, user, current_time),
    {
        match self.find(&user) {
            None => Err(VaultError::UnauthorizedUser),
            Some(i) => {
                let mut ctx = WithdrawStake {
                    vault: self.vault,
                    user_stake: self.stakes[i],
                    user,
                    current_time,
                };
                let r = withdraw_stake(&mut ctx);
                if r.is_ok() {
                    let ghost before = self.stakes@;
                    self.stakes.set(i, ctx.user_stake);
                    assert forall|a: int, b: int|
                        0 <= a < self.stakes@.len() && 0 <= b < self.stakes@.len() && a != b implies
                        self.stakes@[a].user@ != self.stakes@[b].user@ by {
                        assert(self.stakes@[a].user@ == before[a].user@);
                        assert(self.stakes@[b].user@ == before[b].user@);
                    }
                }
                r
            },
        }
    }
}

} // verus!
