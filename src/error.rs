use vstd::prelude::*;

verus! {

/// The ways an operation on the vault can be refused.
#[derive(Clone, Copy, Debug, PartialEq, Eq, Structural)]
pub enum VaultError {
    /// The staked amount is zero.
    InvalidAmount,
    /// The lock term is neither one nor two years.
    InvalidStakePeriod,
    /// The position's unlock time has not come yet.
    StillLocked,
    /// The position has already been paid out.
    AlreadyWithdrawn,
    /// The signer is not the position's owner.
    UnauthorizedUser,
    /// A timestamp or an amount would not fit its type.
    MathOverflow,
    /// A position for this vault and user is already recorded.
    AlreadyExists,
}

} // verus!
