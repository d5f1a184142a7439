//! Accounts as the host hands them to one call: an address, an owner, and a
//! byte buffer that the call may read and write.

use vstd::prelude::*;

verus! {

/// Number of bytes in an address.
pub const KEY_LEN: usize = 32;

/// One account: its address, the program that owns it, and its data.
pub struct Account {
    pub key: [u8; 32],
    pub owner: [u8; 32],
    pub data: Vec<u8>,
}

impl Account {
    /// An account at address `key`, owned by `owner`, holding `data`.
    pub fn new(key: [u8; 32], owner: [u8; 32], data: Vec<u8>) -> (r: Account)
        ensures
            r.key == key,
            r.owner == owner,
            r.data@ == data@,
    {
        Account { key, owner, data }
    }
}

/// Whether two addresses are the same.
pub fn same_key(a: &[u8; 32], b: &[u8; 32]) -> (r: bool)
    ensures
        r == (a@ == b@),
{
    let mut i: usize = 0;
    while i < KEY_LEN
        invariant
            i <= KEY_LEN,
            a@.len() == KEY_LEN,
            b@.len() == KEY_LEN,
            forall|j: int| 0 <= j < i ==> a@[j] == b@[j],
        decreases KEY_LEN - i,
    {
        if a[i] != b[i] {
            return false;
        }
        i = i + 1;
    }
    assert(a@ =~= b@);
    true
}

/// The base58 text that the runtime shows for the address `k`.
pub uninterp spec fn base58_text(k: Seq<u8>) -> Seq<char>;

/// Relies on `Pubkey::new_from_array` and `Pubkey`'s `Display`: the base58
/// text of the address, which depends on its bytes alone.
#[verifier::external_body]
pub(crate) fn key_text(k: &[u8; 32]) -> (r: String)
    ensures
        r@ == base58_text(k@),
{
    solana_program::pubkey::Pubkey::new_from_array(*k).to_string()
}

} // verus!
