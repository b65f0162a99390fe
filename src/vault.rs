use vstd::prelude::*;

use crate::address::Address;

verus! {

/// The custody record of one administrator.
#[derive(Clone, Copy, Debug)]
pub struct Vault {
    pub admin: Address,
    pub bump: u8,
}

impl Vault {
    /// Records the administrator and the derivation nonce of the vault.
    pub fn initialize(&mut self, admin: Address, bump: u8)
        ensures
            *final(self) == (Vault { admin, bump }),
    {
        self.admin = admin;
        self.bump = bump;
    }
}

} // verus!
