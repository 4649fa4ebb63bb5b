use std::str::FromStr;

use anchor_lang::prelude::Pubkey;
use talos_vault::{
    deposit, initialize, try_deposit, try_initialize, vault_address, withdraw, Allocation,
    Deposit, Identity, Initialize, LiquidityAdded, LiquidityRemoved, Transfer, VaultError,
    VaultInitialized, VaultState, Withdraw, VAULT_SPACE,
};

fn program() -> Identity {
    Pubkey::from_str("Fg6PaFpoGXkYsidMpWTK6W2BeZ7FEfcYkg476zPFsLnS").unwrap().to_bytes()
}

fn alice() -> Identity {
    [0xA1; 32]
}

fn bob() -> Identity {
    [0xB0; 32]
}

fn address_of(owner: &Identity) -> Identity {
    vault_address(owner, &program()).unwrap().0
}

fn create(owner: Identity, timestamp: i64) -> VaultState {
    let mut ctx = Initialize {
        program_id: program(),
        vault_address: address_of(&owner),
        vault: None,
        signer: owner,
    };
    initialize(&mut ctx, timestamp).unwrap();
    ctx.vault.unwrap()
}

fn deposit_ctx(vault: VaultState, signer: Identity) -> Deposit {
    Deposit { program_id: program(), vault_address: address_of(&signer), vault, signer }
}

fn withdraw_ctx(vault: VaultState, signer: Identity) -> Withdraw {
    Withdraw { vault_address: address_of(&vault.owner), vault, signer }
}

#[test]
fn create_deposit_withdraw_scenario() {
    let a = alice();
    let at = address_of(&a);

    let mut init = Initialize { program_id: program(), vault_address: at, vault: None, signer: a };
    let created = initialize(&mut init, 1_700_000_000);
    assert_eq!(
        created,
        Ok((
            Allocation { address: at, space: 48, payer: a },
            VaultInitialized { owner: a, timestamp: 1_700_000_000 },
        ))
    );
    let vault = init.vault.unwrap();
    assert_eq!(vault, VaultState { owner: a, balance: 0 });

    let mut dep = deposit_ctx(vault, a);
    let first = deposit(&mut dep, 100);
    assert_eq!(
        first,
        Ok((
            Transfer { from: a, to: at, amount: 100 },
            LiquidityAdded { user: a, amount: 100, new_balance: 100 },
        ))
    );
    assert_eq!(dep.vault.balance, 100);

    let second = deposit(&mut dep, 50);
    assert_eq!(
        second,
        Ok((
            Transfer { from: a, to: at, amount: 50 },
            LiquidityAdded { user: a, amount: 50, new_balance: 150 },
        ))
    );
    assert_eq!(dep.vault.balance, 150);

    let mut wd = withdraw_ctx(dep.vault, a);
    let all = withdraw(&mut wd, 150);
    assert_eq!(
        all,
        Ok((
            Transfer { from: at, to: a, amount: 150 },
            LiquidityRemoved { owner: a, amount: 150, remaining_balance: 0 },
        ))
    );
    assert_eq!(wd.vault.balance, 0);

    let more = withdraw(&mut wd, 1);
    assert_eq!(more, Err(VaultError::InsufficientFunds));
    assert_eq!(wd.vault, VaultState { owner: a, balance: 0 });
}

#[test]
fn stranger_cannot_withdraw_scenario() {
    let vault = create(alice(), 5);
    let mut wd = withdraw_ctx(vault, bob());
    assert_eq!(withdraw(&mut wd, 1), Err(VaultError::Unauthorized));
    assert_eq!(wd.vault.balance, 0);
    assert_eq!(wd.vault.owner, alice());
}

#[test]
fn balance_is_deposits_minus_withdrawals() {
    let a = alice();
    let mut vault = create(a, 0);
    let deposits: [u64; 5] = [7, 0, 1_000_000, 13, u32::MAX as u64];
    let withdrawals: [u64; 4] = [3, 4, 0, 18];
    let mut put_in: u64 = 0;
    let mut taken_out: u64 = 0;
    for round in 0..5 {
        let mut dep = deposit_ctx(vault, a);
        deposit(&mut dep, deposits[round]).unwrap();
        vault = dep.vault;
        put_in += deposits[round];
        if round < 4 {
            let mut wd = withdraw_ctx(vault, a);
            withdraw(&mut wd, withdrawals[round]).unwrap();
            vault = wd.vault;
            taken_out += withdrawals[round];
        }
        assert_eq!(vault.balance, put_in - taken_out);
        assert_eq!(vault.owner, a);
    }
    assert_eq!(vault.balance, 4_295_967_290);
}

#[test]
fn refused_requests_do_not_count_towards_the_balance() {
    let a = alice();
    let mut vault = create(a, 0);
    let mut dep = deposit_ctx(vault, a);
    deposit(&mut dep, 40).unwrap();
    vault = dep.vault;

    let mut too_much = withdraw_ctx(vault, a);
    assert_eq!(withdraw(&mut too_much, 41), Err(VaultError::InsufficientFunds));
    let mut stranger = withdraw_ctx(too_much.vault, bob());
    assert_eq!(withdraw(&mut stranger, 1), Err(VaultError::Unauthorized));
    let mut rest = withdraw_ctx(stranger.vault, a);
    withdraw(&mut rest, 15).unwrap();
    assert_eq!(rest.vault.balance, 25);
}

#[test]
fn withdraw_by_another_identity_is_unauthorized_whatever_the_amount() {
    let vault = VaultState { owner: alice(), balance: 500 };
    for amount in [0u64, 1, 499, 500, 501, u64::MAX] {
        let mut wd = withdraw_ctx(vault, bob());
        assert_eq!(withdraw(&mut wd, amount), Err(VaultError::Unauthorized));
        assert_eq!(wd.vault, vault);
        assert_eq!(wd.signer, bob());
    }
}

#[test]
fn identities_that_differ_in_one_byte_are_not_the_owner() {
    let owner = alice();
    let vault = VaultState { owner, balance: 10 };
    for position in [0usize, 15, 31] {
        let mut near = owner;
        near[position] ^= 1;
        let mut wd = withdraw_ctx(vault, near);
        assert_eq!(withdraw(&mut wd, 1), Err(VaultError::Unauthorized));
        assert_eq!(wd.vault.balance, 10);
    }
}

#[test]
fn withdraw_of_more_than_the_balance_is_insufficient_funds() {
    let a = alice();
    for (balance, amount) in [(0u64, 1u64), (10, 11), (10, u64::MAX), (u64::MAX - 1, u64::MAX)] {
        let vault = VaultState { owner: a, balance };
        let mut wd = withdraw_ctx(vault, a);
        assert_eq!(withdraw(&mut wd, amount), Err(VaultError::InsufficientFunds));
        assert_eq!(wd.vault, vault);
    }
}

#[test]
fn withdraw_of_the_whole_balance_leaves_zero() {
    let a = alice();
    let mut wd = withdraw_ctx(VaultState { owner: a, balance: u64::MAX }, a);
    let (transfer, event) = withdraw(&mut wd, u64::MAX).unwrap();
    assert_eq!(transfer.amount, u64::MAX);
    assert_eq!(event.remaining_balance, 0);
    assert_eq!(wd.vault.balance, 0);
}

#[test]
fn withdraw_of_nothing_succeeds_and_changes_nothing() {
    let a = alice();
    let mut wd = withdraw_ctx(VaultState { owner: a, balance: 9 }, a);
    let (transfer, event) = withdraw(&mut wd, 0).unwrap();
    assert_eq!(transfer, Transfer { from: address_of(&a), to: a, amount: 0 });
    assert_eq!(event, LiquidityRemoved { owner: a, amount: 0, remaining_balance: 9 });
    assert_eq!(wd.vault.balance, 9);
}

#[test]
fn second_create_for_the_same_owner_already_exists() {
    let a = alice();
    let at = address_of(&a);
    let mut first = Initialize { program_id: program(), vault_address: at, vault: None, signer: a };
    initialize(&mut first, 10).unwrap();

    let mut dep = deposit_ctx(first.vault.unwrap(), a);
    deposit(&mut dep, 77).unwrap();

    let again_at = address_of(&a);
    assert_eq!(again_at, at);
    let mut second =
        Initialize { program_id: program(), vault_address: again_at, vault: Some(dep.vault), signer: a };
    assert_eq!(initialize(&mut second, 20), Err(VaultError::AlreadyExists));
    assert_eq!(second.vault, Some(VaultState { owner: a, balance: 77 }));
}

#[test]
fn create_on_an_account_that_holds_a_vault_keeps_its_owner() {
    let a = alice();
    let taken = VaultState { owner: bob(), balance: 3 };
    let mut ctx = Initialize {
        program_id: program(),
        vault_address: address_of(&a),
        vault: Some(taken),
        signer: a,
    };
    assert_eq!(initialize(&mut ctx, 1), Err(VaultError::AlreadyExists));
    assert_eq!(ctx.vault, Some(taken));
}

#[test]
fn create_reserves_the_space_of_one_record() {
    assert_eq!(VAULT_SPACE, 48);
    let a = bob();
    let mut ctx =
        Initialize { program_id: program(), vault_address: address_of(&a), vault: None, signer: a };
    let (allocation, event) = initialize(&mut ctx, -1).unwrap();
    assert_eq!(allocation.space, 8 + 32 + 8);
    assert_eq!(allocation.payer, a);
    assert_eq!(allocation.address, address_of(&a));
    assert_eq!(event, VaultInitialized { owner: a, timestamp: -1 });
}

#[test]
fn deposit_past_the_largest_balance_overflows() {
    let a = alice();
    for (balance, amount) in [(u64::MAX, 1u64), (u64::MAX - 5, 6), (1, u64::MAX), (u64::MAX, u64::MAX)] {
        let vault = VaultState { owner: a, balance };
        let mut dep = deposit_ctx(vault, a);
        assert_eq!(deposit(&mut dep, amount), Err(VaultError::ArithmeticOverflow));
        assert_eq!(dep.vault, vault);
    }
}

#[test]
fn deposit_up_to_the_largest_balance_succeeds() {
    let a = alice();
    let mut dep = deposit_ctx(VaultState { owner: a, balance: u64::MAX - 5 }, a);
    let (transfer, event) = deposit(&mut dep, 5).unwrap();
    assert_eq!(transfer.amount, 5);
    assert_eq!(event.new_balance, u64::MAX);
    assert_eq!(dep.vault.balance, u64::MAX);
}

#[test]
fn deposit_of_nothing_succeeds_and_changes_nothing() {
    let a = alice();
    let mut dep = deposit_ctx(VaultState { owner: a, balance: 12 }, a);
    let (transfer, event) = deposit(&mut dep, 0).unwrap();
    assert_eq!(transfer, Transfer { from: a, to: address_of(&a), amount: 0 });
    assert_eq!(event, LiquidityAdded { user: a, amount: 0, new_balance: 12 });
    assert_eq!(dep.vault.balance, 12);
}

#[test]
fn try_deposit_into_the_callers_own_vault_deposits() {
    let a = alice();
    let mut dep = deposit_ctx(VaultState { owner: a, balance: 1 }, a);
    let answer = try_deposit(&mut dep, 2);
    assert_eq!(
        answer,
        Some(Ok((
            Transfer { from: a, to: address_of(&a), amount: 2 },
            LiquidityAdded { user: a, amount: 2, new_balance: 3 },
        )))
    );
    assert_eq!(dep.vault.balance, 3);
}

#[test]
fn try_deposit_reports_an_overflow() {
    let a = alice();
    let mut dep = deposit_ctx(VaultState { owner: a, balance: u64::MAX }, a);
    assert_eq!(try_deposit(&mut dep, 1), Some(Err(VaultError::ArithmeticOverflow)));
    assert_eq!(dep.vault.balance, u64::MAX);
}

#[test]
fn try_deposit_into_another_owners_vault_does_nothing() {
    let theirs = VaultState { owner: alice(), balance: 8 };
    let mut dep = Deposit {
        program_id: program(),
        vault_address: address_of(&alice()),
        vault: theirs,
        signer: bob(),
    };
    assert_eq!(try_deposit(&mut dep, 5), None);
    assert_eq!(dep.vault, theirs);
}

#[test]
fn try_deposit_under_another_program_does_nothing() {
    let a = alice();
    let mut dep = Deposit {
        program_id: [3; 32],
        vault_address: address_of(&a),
        vault: VaultState { owner: a, balance: 8 },
        signer: a,
    };
    assert_eq!(try_deposit(&mut dep, 5), None);
    assert_eq!(dep.vault.balance, 8);
}

#[test]
fn try_initialize_at_the_derived_address_creates() {
    let a = alice();
    let at = address_of(&a);
    let mut ctx = Initialize { program_id: program(), vault_address: at, vault: None, signer: a };
    let answer = try_initialize(&mut ctx, 99);
    assert_eq!(
        answer,
        Some(Ok((
            Allocation { address: at, space: 48, payer: a },
            VaultInitialized { owner: a, timestamp: 99 },
        )))
    );
    assert_eq!(ctx.vault, Some(VaultState { owner: a, balance: 0 }));
    assert_eq!(try_initialize(&mut ctx, 100), Some(Err(VaultError::AlreadyExists)));
    assert_eq!(ctx.vault, Some(VaultState { owner: a, balance: 0 }));
}

#[test]
fn try_initialize_at_another_address_does_nothing() {
    let a = alice();
    let mut ctx =
        Initialize { program_id: program(), vault_address: address_of(&bob()), vault: None, signer: a };
    assert_eq!(try_initialize(&mut ctx, 99), None);
    assert_eq!(ctx.vault, None);
    let mut at_own_key =
        Initialize { program_id: program(), vault_address: a, vault: None, signer: a };
    assert_eq!(try_initialize(&mut at_own_key, 99), None);
    assert_eq!(at_own_key.vault, None);
}
