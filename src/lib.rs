use vstd::prelude::*;

pub mod address;
pub mod book;
pub mod error;
pub mod instructions;
pub mod laws;
pub mod stake;
pub mod vault;

pub use address::Address;
pub use book::StakeBook;
pub use error::VaultError;
pub use instructions::{
    create_vault, stake_tokens, withdraw_stake, CreateVault, StakeCreatedEvent, StakeTokens,
    StakeWithdrawnEvent, WithdrawStake,
};
pub use stake::{UserStake, SECONDS_PER_YEAR};
pub use vault::Vault;

verus! {

} // verus!
