//! The accounts that each operation is handed, as plain values, and what
//! each operation makes of them.

use crate::address::{is_vault_address, is_vault_of};
use crate::effects::{Allocation, Transfer};
use crate::events::{LiquidityAdded, LiquidityRemoved, VaultInitialized};
use crate::identity::Identity;
use crate::state::{VaultError, VaultState};
use vstd::prelude::*;

verus! {

/// The space that the account of a vault takes, in bytes: a tag of eight
/// bytes that marks the kind of account, the owner's key, and the balance.
pub const VAULT_SPACE: usize = 8 + 32 + 8;

/// The accounts of a request to create a vault.
#[derive(Clone, Copy, Debug, PartialEq, Eq)]
pub struct Initialize {
    /// The program that the vault belongs to.
    pub program_id: Identity,
    /// The address of the account that is to hold the vault.
    pub vault_address: Identity,
    /// What that account holds: `None` as long as no vault was created there.
    pub vault: Option<VaultState>,
    /// The caller, who becomes the owner.
    pub signer: Identity,
}

/// The accounts of a deposit.
#[derive(Clone, Copy, Debug, PartialEq, Eq)]
pub struct Deposit {
    /// The program that the vault belongs to.
    pub program_id: Identity,
    /// The address of the account that holds the vault.
    pub vault_address: Identity,
    /// The vault that receives the deposit.
    pub vault: VaultState,
    /// The caller, whose funds are deposited.
    pub signer: Identity,
}

/// The accounts of a withdrawal.
#[derive(Clone, Copy, Debug, PartialEq, Eq)]
pub struct Withdraw {
    /// The address of the account that holds the vault.
    pub vault_address: Identity,
    /// The vault that is drawn on.
    pub vault: VaultState,
    /// The caller, who must be the vault's owner.
    pub signer: Identity,
}

impl Initialize {
    /// The vault account is the one whose address is derived for the caller.
    pub open spec fn resolved(self) -> bool {
        is_vault_address(self.vault_address, self.signer, self.program_id)
    }

    /// The accounts once the request has been handled: a vault of the
    /// caller's with nothing in it where there was none, and no change where
    /// there was one.
    pub open spec fn settled(self) -> Initialize {
        match self.vault {
            Some(_) => self,
            None => Initialize { vault: Some(VaultState::created(self.signer)), ..self },
        }
    }

    /// What the request is answered with at time `timestamp`: the storage to
    /// reserve for the vault at the caller's cost and the notice of the
    /// creation, or the refusal.
    pub open spec fn receipt(self, timestamp: i64) -> Result<
        (Allocation, VaultInitialized),
        VaultError,
    > {
        match self.vault {
            Some(_) => Err(VaultError::AlreadyExists),
            None => Ok(
                (
                    Allocation {
                        address: self.vault_address,
                        space: VAULT_SPACE,
                        payer: self.signer,
                    },
                    VaultInitialized { owner: self.signer, timestamp },
                ),
            ),
        }
    }

    /// Decides whether the vault account is the one derived for the caller.
    pub fn is_resolved(&self) -> (yes: bool)
        ensures
            yes == self.resolved(),
    {
        is_vault_of(&self.vault_address, &self.signer, &self.program_id)
    }
}

impl Deposit {
    /// The vault account is the one whose address is derived for the caller.
    pub open spec fn resolved(self) -> bool {
        is_vault_address(self.vault_address, self.signer, self.program_id)
    }

    /// The accounts once a deposit of `amount` has been handled.
    pub open spec fn settled(self, amount: u64) -> Deposit {
        match self.vault.after_deposit(amount) {
            Ok(vault) => Deposit { vault, ..self },
            Err(_) => self,
        }
    }

    /// What a deposit of `amount` is answered with: the funds to move from
    /// the caller to the vault account and the notice of the new balance, or
    /// the refusal.
    pub open spec fn receipt(self, amount: u64) -> Result<(Transfer, LiquidityAdded), VaultError> {
        match self.vault.after_deposit(amount) {
            Ok(vault) => Ok(
                (
                    Transfer { from: self.signer, to: self.vault_address, amount },
                    LiquidityAdded { user: self.signer, amount, new_balance: vault.balance },
                ),
            ),
            Err(error) => Err(error),
        }
    }

    /// Decides whether the vault account is the one derived for the caller.
    pub fn is_resolved(&self) -> (yes: bool)
        ensures
            yes == self.resolved(),
    {
        is_vault_of(&self.vault_address, &self.signer, &self.program_id)
    }
}

impl Withdraw {
    /// The accounts once a withdrawal of `amount` has been handled.
    pub open spec fn settled(self, amount: u64) -> Withdraw {
        match self.vault.after_withdraw(self.signer, amount) {
            Ok(vault) => Withdraw { vault, ..self },
            Err(_) => self,
        }
    }

    /// What a withdrawal of `amount` is answered with: the funds to move
    /// from the vault account to the caller and the notice of what remains,
    /// or the refusal.
    pub open spec fn receipt(self, amount: u64) -> Result<(Transfer, LiquidityRemoved), VaultError> {
        match self.vault.after_withdraw(self.signer, amount) {
            Ok(vault) => Ok(
                (
                    Transfer { from: self.vault_address, to: self.signer, amount },
                    LiquidityRemoved {
                        owner: self.signer,
                        amount,
                        remaining_balance: vault.balance,
                    },
                ),
            ),
            Err(error) => Err(error),
        }
    }
}

} // verus!
