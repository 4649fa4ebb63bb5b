//! The ledger record of one vault, and the ways an operation on it can fail.

use crate::identity::Identity;
use vstd::prelude::*;

verus! {

/// Why an operation was refused. A refused operation changes nothing.
#[derive(Clone, Copy, Debug, PartialEq, Eq)]
pub enum VaultError {
    /// A vault already sits at the address derived for the caller.
    AlreadyExists,
    /// The caller is not the owner recorded in the vault.
    Unauthorized,
    /// The amount asked for is more than the vault's balance.
    InsufficientFunds,
    /// The balance would rise above what 64 bits can hold.
    ArithmeticOverflow,
    /// The balance would fall below zero.
    ArithmeticUnderflow,
}

/// The record of one vault: who owns it and how much it holds.
///
/// The owner is set when the vault is created and never reassigned. The
/// balance moves only by additions and subtractions that are refused rather
/// than left to wrap around.
#[derive(Clone, Copy, Debug, PartialEq, Eq)]
pub struct VaultState {
    pub owner: Identity,
    pub balance: u64,
}

impl VaultState {
    /// The record of a vault that has just been created for `owner`.
    pub open spec fn created(owner: Identity) -> VaultState {
        VaultState { owner, balance: 0 }
    }

    /// The record after a deposit of `amount`, or the refusal of one that
    /// would take the balance past 64 bits.
    pub open spec fn after_deposit(self, amount: u64) -> Result<VaultState, VaultError> {
        if self.balance + amount > u64::MAX {
            Err(VaultError::ArithmeticOverflow)
        } else {
            Ok(VaultState { owner: self.owner, balance: (self.balance + amount) as u64 })
        }
    }

    /// The record after `caller` has withdrawn `amount`, or the refusal.
    /// Whether the caller is the owner is decided first, whether the balance
    /// suffices second.
    pub open spec fn after_withdraw(self, caller: Identity, amount: u64) -> Result<
        VaultState,
        VaultError,
    > {
        if caller != self.owner {
            Err(VaultError::Unauthorized)
        } else if amount > self.balance {
            Err(VaultError::InsufficientFunds)
        } else {
            Ok(VaultState { owner: self.owner, balance: (self.balance - amount) as u64 })
        }
    }

    /// A fresh record: `owner` holds nothing yet.
    pub fn new(owner: Identity) -> (state: VaultState)
        ensures
            state == VaultState::created(owner),
    {
        VaultState { owner, balance: 0 }
    }

    /// Adds `amount` to the balance. Where the sum does not fit in 64 bits,
    /// the record stays as it was and the answer is `ArithmeticOverflow`.
    pub fn credit(&mut self, amount: u64) -> (result: Result<(), VaultError>)
        ensures
            final(self).owner == old(self).owner,
            old(self).balance + amount <= u64::MAX ==> result.is_ok() && final(self).balance
                == old(self).balance + amount,
            old(self).balance + amount > u64::MAX ==> (result matches Err(
                VaultError::ArithmeticOverflow
            )) && final(self).balance == old(self).balance,
    {
        match self.balance.checked_add(amount) {
            Some(balance) => {
                self.balance = balance;
                Ok(())
            },
            None => Err(VaultError::ArithmeticOverflow),
        }
    }

    /// Takes `amount` from the balance. Where the balance is smaller than
    /// `amount`, the record stays as it was and the answer is
    /// `ArithmeticUnderflow`.
    pub fn debit(&mut self, amount: u64) -> (result: Result<(), VaultError>)
        ensures
            final(self).owner == old(self).owner,
            amount <= old(self).balance ==> result.is_ok() && final(self).balance == old(
                self
            ).balance - amount,
            amount > old(self).balance ==> (result matches Err(VaultError::ArithmeticUnderflow))
                && final(self).balance == old(self).balance,
    {
        match self.balance.checked_sub(amount) {
            Some(balance) => {
                self.balance = balance;
                Ok(())
            },
            None => Err(VaultError::ArithmeticUnderflow),
        }
    }
}

} // verus!
