//! Identities: the 32-byte public keys that name owners, callers, programs
//! and the accounts that hold vaults.

use vstd::prelude::*;

verus! {

/// A 32-byte public key.
pub type Identity = [u8; 32];

/// Whether two identities are the same key. All 32 bytes are compared, so
/// a shared prefix is not a match, and the comparison does not stop at the
/// first byte that differs.
pub fn same_identity(a: &Identity, b: &Identity) -> (same: bool)
    ensures
        same == (*a == *b),
{
    let mut same = true;
    let mut i: usize = 0;
    while i < 32
        invariant
            i <= 32,
            same == (forall|j: int| 0 <= j < i ==> a[j] == b[j]),
        decreases 32 - i,
    {
        if a[i] != b[i] {
            same = false;
        }
        i += 1;
    }
    proof {
        if same {
            assert(*a =~= *b);
        }
    }
    same
}

} // verus!
