//! Ledger identities. The host ledger identifies every party — creators,
//! bettors, authorities, markets — by a 32-byte account key; the engine only
//! ever compares keys for equality or against the all-zero "unset" key, so it
//! carries them as plain byte arrays.

use vstd::prelude::*;

verus! {

/// A 32-byte account key of the host ledger.
pub type AccountKey = [u8; 32];

/// Whether a key is the all-zero key, which stands for "no authority bound".
pub open spec fn is_zero_key(k: AccountKey) -> bool {
    forall|i: int| 0 <= i < 32 ==> k@[i] == 0
}

/// Byte-for-byte equality of two account keys.
pub fn keys_equal(a: &AccountKey, b: &AccountKey) -> (r: bool)
    ensures
        r <==> a@ == b@,
{
    let mut i: usize = 0;
    while i < 32
        invariant
            i <= 32,
            forall|j: int| 0 <= j < i ==> a@[j] == b@[j],
        decreases 32 - i,
    {
        if a[i] != b[i] {
            assert(a@[i as int] != b@[i as int]);
            return false;
        }
        i = i + 1;
    }
    assert(a@ =~= b@);
    true
}

/// Whether `k` occurs in `keys`, byte for byte.
pub open spec fn key_in(keys: Seq<AccountKey>, k: AccountKey) -> bool {
    exists|i: int| 0 <= i < keys.len() && keys[i]@ == k@
}

/// Whether a key occurs in a list of keys.
pub fn key_list_contains(keys: &Vec<AccountKey>, k: &AccountKey) -> (r: bool)
    ensures
        r == key_in(keys@, *k),
{
    let mut i: usize = 0;
    while i < keys.len()
        invariant
            i <= keys@.len(),
            forall|j: int| 0 <= j < i ==> keys@[j]@ != k@,
        decreases keys@.len() - i,
    {
        if keys_equal(&keys[i], k) {
            assert(keys@[i as int]@ == k@);
            return true;
        }
        i = i + 1;
    }
    false
}

/// Whether a key is the all-zero key.
pub fn key_is_zero(k: &AccountKey) -> (r: bool)
    ensures
        r <==> is_zero_key(*k),
{
    let mut i: usize = 0;
    while i < 32
        invariant
            i <= 32,
            forall|j: int| 0 <= j < i ==> k@[j] == 0,
        decreases 32 - i,
    {
        if k[i] != 0 {
            assert(k@[i as int] != 0);
            return false;
        }
        i = i + 1;
    }
    true
}

} // verus!
