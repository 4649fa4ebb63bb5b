//! The three operations on a vault: create it, deposit into it, withdraw
//! from it. Each either completes or is refused and changes nothing.
//!
//! An operation works on a copy of what the accounts hold. It leaves the new
//! record in that copy and answers with what remains to be done outside: the
//! funds to move or the storage to reserve, and the notice to send. The
//! record is to be stored, and the notice sent, only once the funds have
//! moved, so that balance and funds change together or not at all.

use crate::accounts::{Deposit, Initialize, Withdraw, VAULT_SPACE};
use crate::effects::{Allocation, Transfer};
use crate::events::{LiquidityAdded, LiquidityRemoved, VaultInitialized};
use crate::identity::same_identity;
use crate::state::{VaultError, VaultState};
use vstd::prelude::*;

verus! {

/// Creates the caller's vault, at time `timestamp`.
///
/// Where the account derived for the caller holds no vault yet, it now holds
/// one that the caller owns, with a balance of zero, and the answer holds the
/// storage to reserve for it, at the caller's cost, and the notice of the
/// creation. Where it holds one already, the request is refused with
/// `AlreadyExists` and that vault is left as it is.
pub fn initialize(ctx: &mut Initialize, timestamp: i64) -> (result: Result<
    (Allocation, VaultInitialized),
    VaultError,
>)
    requires
        old(ctx).resolved(),
    ensures
        final(ctx).resolved(),
        *final(ctx) == old(ctx).settled(),
        result == old(ctx).receipt(timestamp),
        old(ctx).vault.is_some() ==> (result matches Err(VaultError::AlreadyExists))
            && final(ctx).vault == old(ctx).vault,
{
    if ctx.vault.is_some() {
        return Err(VaultError::AlreadyExists);
    }
    ctx.vault = Some(VaultState::new(ctx.signer));
    Ok(
        (
            Allocation { address: ctx.vault_address, space: VAULT_SPACE, payer: ctx.signer },
            VaultInitialized { owner: ctx.signer, timestamp },
        ),
    )
}

/// Deposits `amount` from the caller into the caller's vault.
///
/// The balance rises by `amount`, and the answer holds the movement of funds
/// that goes with it, from the caller to the vault account, and the notice of
/// the new balance. A deposit that would take the balance past 64 bits is
/// refused with `ArithmeticOverflow` and changes nothing. An amount of zero
/// is an ordinary deposit that leaves the balance where it is.
pub fn deposit(ctx: &mut Deposit, amount: u64) -> (result: Result<
    (Transfer, LiquidityAdded),
    VaultError,
>)
    requires
        old(ctx).resolved(),
    ensures
        final(ctx).resolved(),
        *final(ctx) == old(ctx).settled(amount),
        result == old(ctx).receipt(amount),
        old(ctx).vault.balance + amount > u64::MAX ==> (result matches Err(
            VaultError::ArithmeticOverflow
        )) && final(ctx).vault == old(ctx).vault,
{
    ctx.vault.credit(amount)?;
    Ok(
        (
            Transfer { from: ctx.signer, to: ctx.vault_address, amount },
            LiquidityAdded { user: ctx.signer, amount, new_balance: ctx.vault.balance },
        ),
    )
}

/// Withdraws `amount` from a vault to the caller.
///
/// Two things are asked, in this order. The caller must be the vault's owner,
/// or the withdrawal is refused with `Unauthorized`, whatever the amount. The
/// amount must not exceed the balance, or it is refused with
/// `InsufficientFunds`. A refusal changes nothing. Otherwise the balance
/// falls by `amount`, and the answer holds the movement of funds that goes
/// with it, from the vault account to the caller, and the notice of what
/// remains.
pub fn withdraw(ctx: &mut Withdraw, amount: u64) -> (result: Result<
    (Transfer, LiquidityRemoved),
    VaultError,
>)
    ensures
        *final(ctx) == old(ctx).settled(amount),
        result == old(ctx).receipt(amount),
        old(ctx).signer != old(ctx).vault.owner ==> (result matches Err(VaultError::Unauthorized))
            && final(ctx).vault == old(ctx).vault,
        old(ctx).signer == old(ctx).vault.owner && amount > old(ctx).vault.balance ==> (result
            matches Err(VaultError::InsufficientFunds)) && final(ctx).vault == old(ctx).vault,
{
    if !same_identity(&ctx.signer, &ctx.vault.owner) {
        return Err(VaultError::Unauthorized);
    }
    if ctx.vault.balance < amount {
        return Err(VaultError::InsufficientFunds);
    }
    ctx.vault.debit(amount)?;
    Ok(
        (
            Transfer { from: ctx.vault_address, to: ctx.signer, amount },
            LiquidityRemoved { owner: ctx.signer, amount, remaining_balance: ctx.vault.balance },
        ),
    )
}

/// Creates the caller's vault where the vault account is the one derived
/// for the caller, as `initialize` does. Where it is another account,
/// nothing is done and the answer is `None`.
pub fn try_initialize(ctx: &mut Initialize, timestamp: i64) -> (result: Option<
    Result<(Allocation, VaultInitialized), VaultError>,
>)
    ensures
        old(ctx).resolved() ==> *final(ctx) == old(ctx).settled() && result == Some(
            old(ctx).receipt(timestamp),
        ),
        !old(ctx).resolved() ==> *final(ctx) == *old(ctx) && result.is_none(),
{
    if ctx.is_resolved() {
        Some(initialize(ctx, timestamp))
    } else {
        None
    }
}

/// Deposits `amount` where the vault account is the one derived for the
/// caller, as `deposit` does. Where it is another account, nothing is done
/// and the answer is `None`: a caller cannot deposit into a vault that is not
/// the caller's own.
pub fn try_deposit(ctx: &mut Deposit, amount: u64) -> (result: Option<
    Result<(Transfer, LiquidityAdded), VaultError>,
>)
    ensures
        old(ctx).resolved() ==> *final(ctx) == old(ctx).settled(amount) && result == Some(
            old(ctx).receipt(amount),
        ),
        !old(ctx).resolved() ==> *final(ctx) == *old(ctx) && result.is_none(),
{
    if ctx.is_resolved() {
        Some(deposit(ctx, amount))
    } else {
        None
    }
}

} // verus!
