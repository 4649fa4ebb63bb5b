//! The notices that successful operations give of what they did.

use crate::identity::Identity;
use vstd::prelude::*;

verus! {

/// A vault was created for `owner` at time `timestamp`.
#[derive(Clone, Copy, Debug, PartialEq, Eq)]
pub struct VaultInitialized {
    pub owner: Identity,
    pub timestamp: i64,
}

/// `user` deposited `amount`, which brought the balance to `new_balance`.
#[derive(Clone, Copy, Debug, PartialEq, Eq)]
pub struct LiquidityAdded {
    pub user: Identity,
    pub amount: u64,
    pub new_balance: u64,
}

/// `owner` withdrew `amount`, which left `remaining_balance`.
#[derive(Clone, Copy, Debug, PartialEq, Eq)]
pub struct LiquidityRemoved {
    pub owner: Identity,
    pub amount: u64,
    pub remaining_balance: u64,
}

} // verus!
