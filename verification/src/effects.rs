//! What a successful operation leaves to whoever holds the accounts: the
//! funds to move and the storage to reserve.

use crate::identity::Identity;
use vstd::prelude::*;

verus! {

/// A movement of `amount` of real funds out of the account `from` and into
/// the account `to`. Every change of a balance comes with exactly one, of
/// the same amount, to be carried out in the same indivisible step: where
/// the funds do not move, the new balance is dropped.
#[derive(Clone, Copy, Debug, PartialEq, Eq)]
pub struct Transfer {
    pub from: Identity,
    pub to: Identity,
    pub amount: u64,
}

/// A reservation of `space` bytes of storage for the account `address`,
/// paid for by `payer`. Every creation of a vault comes with exactly one.
#[derive(Clone, Copy, Debug, PartialEq, Eq)]
pub struct Allocation {
    pub address: Identity,
    pub space: usize,
    pub payer: Identity,
}

impl Transfer {
    /// The funds that `account` holds once the transfer is done, where it
    /// held `funds` before.
    pub open spec fn applied(self, account: Identity, funds: int) -> int {
        funds - (if self.from == account {
            self.amount as int
        } else {
            0
        }) + (if self.to == account {
            self.amount as int
        } else {
            0
        })
    }
}

} // verus!
