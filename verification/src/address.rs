//! Where a vault lives: the account address derived from its owner's
//! identity, so that every owner has exactly one vault and anyone can
//! compute where it is.

use crate::identity::{same_identity, Identity};
use anchor_lang::prelude::Pubkey;
use vstd::prelude::*;

verus! {

/// The namespace tag that starts the seeds of every vault address: the
/// bytes of the word "vault".
pub const VAULT_SEED: [u8; 5] = [118, 97, 117, 108, 116];

/// The program-derived address that `Pubkey::try_find_program_address`
/// finds for `seeds` under `program_id`, with the bump seed that gives it, or
/// `None` where it finds none.
pub uninterp spec fn program_address(seeds: Seq<Seq<u8>>, program_id: Seq<u8>) -> Option<
    (Seq<u8>, u8),
>;

/// Calls `Pubkey::try_find_program_address` on the two seeds `tag` and
/// `owner`, in this order, under `program_id`.
///
/// The contract is believed, not proved. It claims that what comes back is
/// `program_address` of these seeds and this program id, and so no more than
/// that the same seeds and program id always give the same address and bump
/// seed, or always none.
#[verifier::external_body]
fn find_program_address(tag: &[u8], owner: &[u8], program_id: &Identity) -> (found: Option<
    (Identity, u8),
>)
    ensures
        match found {
            Some((address, bump)) => program_address(seq![tag@, owner@], program_id@)
                == Some((address@, bump)),
            None => program_address(seq![tag@, owner@], program_id@).is_none(),
        },
{
    let program = Pubkey::new_from_array(*program_id);
    match Pubkey::try_find_program_address(&[tag, owner], &program) {
        Some((address, bump)) => Some((address.to_bytes(), bump)),
        None => None,
    }
}

/// What the derivation gives for the vault of `owner` under `program_id`:
/// the address and its bump seed.
pub open spec fn vault_derivation(owner: Identity, program_id: Identity) -> Option<(Seq<u8>, u8)> {
    program_address(seq![VAULT_SEED@, owner@], program_id@)
}

/// Whether `address` is where the vault of `owner` lives under `program_id`.
pub open spec fn is_vault_address(address: Identity, owner: Identity, program_id: Identity) -> bool {
    match vault_derivation(owner, program_id) {
        Some((derived, _)) => derived == address@,
        None => false,
    }
}

/// Derives the address of the vault of `owner` under `program_id`, with the
/// bump seed that keeps the address apart from every valid key. The answer
/// is `None` where no bump seed does.
pub fn vault_address(owner: &Identity, program_id: &Identity) -> (derived: Option<(Identity, u8)>)
    ensures
        match derived {
            Some((address, bump)) => vault_derivation(*owner, *program_id)
                == Some((address@, bump)),
            None => vault_derivation(*owner, *program_id).is_none(),
        },
{
    let seed = VAULT_SEED;
    find_program_address(seed.as_slice(), owner.as_slice(), program_id)
}

/// Whether `address` is the address that a derivation gave.
pub fn matches_derived(address: &Identity, derived: &Option<(Identity, u8)>) -> (yes: bool)
    ensures
        yes == match *derived {
            Some((found, _)) => found == *address,
            None => false,
        },
{
    match derived {
        Some((found, _)) => same_identity(found, address),
        None => false,
    }
}

/// Decides whether `address` is where the vault of `owner` lives under
/// `program_id`.
pub fn is_vault_of(address: &Identity, owner: &Identity, program_id: &Identity) -> (yes: bool)
    ensures
        yes == is_vault_address(*address, *owner, *program_id),
{
    let derived = vault_address(owner, program_id);
    proof {
        if let Some((found, _)) = derived {
            if found@ == address@ {
                assert(found =~= *address);
            }
        }
    }
    matches_derived(address, &derived)
}

} // verus!
