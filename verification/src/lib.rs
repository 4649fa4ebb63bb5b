//! A custody ledger: one vault per owner, holding a balance that only
//! deposits raise and only the owner's withdrawals lower.
//!
//! A vault lives in the account whose address is derived from its owner's
//! identity, so it needs no table to be found. The operations work on plain
//! values: they are handed what the accounts hold, decide, and hand back the
//! new record together with the movement of funds and the notice that go
//! with it. Moving the funds, storing the record and sending the notice are
//! left to whoever holds the accounts.

pub mod accounts;
pub mod address;
pub mod effects;
pub mod events;
pub mod identity;
pub mod laws;
pub mod state;
pub mod vault;

pub use crate::accounts::{Deposit, Initialize, Withdraw, VAULT_SPACE};
pub use crate::address::{is_vault_of, matches_derived, vault_address, VAULT_SEED};
pub use crate::effects::{Allocation, Transfer};
pub use crate::events::{LiquidityAdded, LiquidityRemoved, VaultInitialized};
pub use crate::identity::{same_identity, Identity};
pub use crate::state::{VaultError, VaultState};
pub use crate::vault::{deposit, initialize, try_deposit, try_initialize, withdraw};
