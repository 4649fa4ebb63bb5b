//! What holds of a vault over its whole life, stated over the same
//! transitions that the operations are specified by.

use crate::accounts::{Deposit, Initialize, Withdraw};
use crate::address::is_vault_address;
use crate::identity::Identity;
use crate::state::{VaultError, VaultState};
use vstd::prelude::*;

verus! {

/// One request against an existing vault.
pub enum Operation {
    Deposit { amount: u64 },
    Withdraw { caller: Identity, amount: u64 },
}

/// The record after one request, or the refusal.
pub open spec fn step(state: VaultState, operation: Operation) -> Result<VaultState, VaultError> {
    match operation {
        Operation::Deposit { amount } => state.after_deposit(amount),
        Operation::Withdraw { caller, amount } => state.after_withdraw(caller, amount),
    }
}

/// The record after a run of requests, taken in order, that all succeed;
/// `None` where one of them is refused.
pub open spec fn replay(state: VaultState, operations: Seq<Operation>) -> Option<VaultState>
    decreases operations.len(),
{
    if operations.len() == 0 {
        Some(state)
    } else {
        match replay(state, operations.drop_last()) {
            Some(before) => match step(before, operations.last()) {
                Ok(after) => Some(after),
                Err(_) => None,
            },
            None => None,
        }
    }
}

/// The sum of the amounts that a run of requests deposits.
pub open spec fn deposited(operations: Seq<Operation>) -> int
    decreases operations.len(),
{
    if operations.len() == 0 {
        0
    } else {
        deposited(operations.drop_last()) + match operations.last() {
            Operation::Deposit { amount } => amount as int,
            Operation::Withdraw { .. } => 0,
        }
    }
}

/// The sum of the amounts that a run of requests withdraws.
pub open spec fn withdrawn(operations: Seq<Operation>) -> int
    decreases operations.len(),
{
    if operations.len() == 0 {
        0
    } else {
        withdrawn(operations.drop_last()) + match operations.last() {
            Operation::Deposit { .. } => 0,
            Operation::Withdraw { amount, .. } => amount as int,
        }
    }
}

/// Conservation, from any point on. After any run of successful deposits
/// and withdrawals on one vault, the balance is what it was, plus all that
/// was deposited, minus all that was withdrawn. The owner is who it was.
pub proof fn law_conservation(state: VaultState, operations: Seq<Operation>)
    requires
        replay(state, operations).is_some(),
    ensures
        replay(state, operations).unwrap().balance == state.balance + deposited(operations)
            - withdrawn(operations),
        replay(state, operations).unwrap().owner == state.owner,
    decreases operations.len(),
{
    if operations.len() > 0 {
        law_conservation(state, operations.drop_last());
    }
}

/// Conservation, over the life of a vault. After any run of successful
/// deposits and withdrawals since its creation, the balance of a vault is
/// the sum of what was deposited minus the sum of what was withdrawn, and
/// its owner is still the one it was created for.
pub proof fn law_conservation_since_creation(owner: Identity, operations: Seq<Operation>)
    requires
        replay(VaultState::created(owner), operations).is_some(),
    ensures
        replay(VaultState::created(owner), operations).unwrap().balance == deposited(operations)
            - withdrawn(operations),
        replay(VaultState::created(owner), operations).unwrap().owner == owner,
{
    law_conservation(VaultState::created(owner), operations);
}

/// Only the owner withdraws. A withdrawal by any other caller is refused
/// with `Unauthorized`, whatever the amount, and leaves the vault as it is.
pub proof fn law_only_the_owner_withdraws(ctx: Withdraw, amount: u64)
    requires
        ctx.signer != ctx.vault.owner,
    ensures
        ctx.receipt(amount) matches Err(VaultError::Unauthorized),
        ctx.settled(amount) == ctx,
{
}

/// No withdrawal exceeds the balance. When the owner asks for more than
/// the vault holds, the withdrawal is refused with `InsufficientFunds` and
/// leaves the vault as it is.
pub proof fn law_no_withdrawal_exceeds_the_balance(ctx: Withdraw, amount: u64)
    requires
        ctx.signer == ctx.vault.owner,
        amount > ctx.vault.balance,
    ensures
        ctx.receipt(amount) matches Err(VaultError::InsufficientFunds),
        ctx.settled(amount) == ctx,
{
}

/// No deposit wraps the balance around. A deposit that would take the
/// balance past the largest number that 64 bits hold is refused with
/// `ArithmeticOverflow` and leaves the vault as it is.
pub proof fn law_no_deposit_overflows(ctx: Deposit, amount: u64)
    requires
        ctx.vault.balance + amount > u64::MAX,
    ensures
        ctx.receipt(amount) matches Err(VaultError::ArithmeticOverflow),
        ctx.settled(amount) == ctx,
{
}

/// An owner has one vault. Two accounts that are each the one derived for
/// the same owner under the same program are the same account.
pub proof fn law_one_vault_per_owner(
    first: Identity,
    second: Identity,
    owner: Identity,
    program_id: Identity,
)
    requires
        is_vault_address(first, owner, program_id),
        is_vault_address(second, owner, program_id),
    ensures
        first == second,
{
    assert(first =~= second);
}

/// No vault is created twice. Once a create for an owner has succeeded,
/// and whatever deposits and withdrawals have succeeded since, a second
/// create for the same owner arrives at the same account, is refused with
/// `AlreadyExists`, and leaves the owner and the balance of the vault as
/// they are.
pub proof fn law_no_double_create(
    first: Initialize,
    first_time: i64,
    since: Seq<Operation>,
    second: Initialize,
    second_time: i64,
)
    requires
        first.resolved(),
        second.resolved(),
        second.program_id == first.program_id,
        second.signer == first.signer,
        first.receipt(first_time).is_ok(),
        replay(first.settled().vault.unwrap(), since).is_some(),
        second.vault_address == first.vault_address ==> second.vault == replay(
            first.settled().vault.unwrap(),
            since,
        ),
    ensures
        second.vault_address == first.vault_address,
        second.receipt(second_time) matches Err(VaultError::AlreadyExists),
        second.settled() == second,
{
    law_one_vault_per_owner(
        first.vault_address,
        second.vault_address,
        first.signer,
        first.program_id,
    );
}

/// Deposited funds follow the balance. Once the transfer that comes with a
/// successful deposit is done, the vault account holds more by exactly what
/// the balance rose by, so an account that held at least its balance still
/// does. This asks that the caller's own account is not the vault account.
pub proof fn law_deposit_moves_what_it_records(ctx: Deposit, amount: u64, funds: int)
    requires
        ctx.signer != ctx.vault_address,
        ctx.receipt(amount).is_ok(),
    ensures
        ctx.receipt(amount).unwrap().0.applied(ctx.vault_address, funds) - ctx.settled(
            amount,
        ).vault.balance == funds - ctx.vault.balance,
{
}

/// Withdrawn funds follow the balance. Once the transfer that comes with a
/// successful withdrawal is done, the vault account holds less by exactly
/// what the balance fell by, and an account that held at least its balance
/// is not asked for more than it holds. This asks that the caller's own
/// account is not the vault account.
pub proof fn law_withdraw_moves_what_it_records(ctx: Withdraw, amount: u64, funds: int)
    requires
        ctx.signer != ctx.vault_address,
        ctx.receipt(amount).is_ok(),
    ensures
        ctx.receipt(amount).unwrap().0.applied(ctx.vault_address, funds) - ctx.settled(
            amount,
        ).vault.balance == funds - ctx.vault.balance,
        funds >= ctx.vault.balance ==> ctx.receipt(amount).unwrap().0.amount <= funds,
{
}

} // verus!
