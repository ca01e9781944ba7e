//! Accounts as the program sees them: address, owner, lamports, data, signer flag.
//!
//! An instruction receives a list of accounts. The same account may appear at
//! several positions of the list; entries with the same key are the same
//! account, so every change to an account is made at every position that holds
//! its key.
use crate::pubkey::{pubkey_eq, Pubkey};
use vstd::prelude::*;

verus! {

/// The value of an account, as specifications see it.
#[verifier::ext_equal]
pub struct AccountView {
    pub key: Seq<u8>,
    pub owner: Seq<u8>,
    pub lamports: u64,
    pub data: Seq<u8>,
    pub is_signer: bool,
}

/// An account passed to an instruction.
pub struct AccountInfo {
    /// The account's address.
    pub key: Pubkey,
    /// The program that owns the account.
    pub owner: Pubkey,
    /// The account's balance in lamports.
    pub lamports: u64,
    /// The account's data.
    pub data: Vec<u8>,
    /// Whether the transaction was signed by this account's key.
    pub is_signer: bool,
}

impl DeepView for AccountInfo {
    type V = AccountView;

    open spec fn deep_view(&self) -> AccountView {
        AccountView {
            key: self.key@,
            owner: self.owner@,
            lamports: self.lamports,
            data: self.data@,
            is_signer: self.is_signer,
        }
    }
}

impl AccountInfo {
    /// The account's address.
    pub fn key(&self) -> (r: &Pubkey)
        ensures
            r@ == self.key@,
    {
        &self.key
    }

    /// The program that owns the account.
    pub fn owner(&self) -> (r: &Pubkey)
        ensures
            r@ == self.owner@,
    {
        &self.owner
    }

    /// The account's balance in lamports.
    pub fn lamports(&self) -> (r: u64)
        ensures
            r == self.lamports,
    {
        self.lamports
    }

    /// The length of the account's data.
    pub fn data_len(&self) -> (r: usize)
        ensures
            r == self.data@.len(),
    {
        self.data.len()
    }

    /// The account's data.
    pub fn data(&self) -> (r: &[u8])
        ensures
            r@ == self.data@,
    {
        self.data.as_slice()
    }

    /// Whether the transaction was signed by this account's key.
    pub fn is_signer(&self) -> (r: bool)
        ensures
            r == self.is_signer,
    {
        self.is_signer
    }

    /// A copy of the account.
    pub fn duplicate(&self) -> (r: AccountInfo)
        ensures
            r.deep_view() == self.deep_view(),
    {
        AccountInfo {
            key: self.key,
            owner: self.owner,
            lamports: self.lamports,
            data: copy_bytes(&self.data),
            is_signer: self.is_signer,
        }
    }
}

/// A copy of a byte vector.
pub fn copy_bytes(v: &Vec<u8>) -> (r: Vec<u8>)
    ensures
        r@ == v@,
{
    vstd::slice::slice_to_vec(v.as_slice())
}

/// The accounts with every account whose key is `key` given new data.
pub open spec fn with_data(accs: Seq<AccountView>, key: Seq<u8>, data: Seq<u8>) -> Seq<AccountView> {
    accs.map_values(
        |a: AccountView|
            if a.key == key {
                AccountView { data: data, ..a }
            } else {
                a
            },
    )
}

/// The accounts with every account whose key is `key` given a new balance.
pub open spec fn with_lamports(accs: Seq<AccountView>, key: Seq<u8>, lamports: u64) -> Seq<
    AccountView,
> {
    accs.map_values(
        |a: AccountView|
            if a.key == key {
                AccountView { lamports: lamports, ..a }
            } else {
                a
            },
    )
}

/// The accounts with the account whose key is `key` closed: no lamports, no
/// data and the all-zero owner.
pub open spec fn with_closed(accs: Seq<AccountView>, key: Seq<u8>) -> Seq<AccountView> {
    accs.map_values(
        |a: AccountView|
            if a.key == key {
                AccountView { lamports: 0, data: Seq::empty(), owner: Seq::new(32, |i: int| 0u8), ..a }
            } else {
                a
            },
    )
}

/// Entries with the same key hold the same account.
pub open spec fn accounts_coherent(accs: Seq<AccountView>) -> bool {
    forall|i: int, j: int|
        0 <= i < accs.len() && 0 <= j < accs.len() && #[trigger] accs[i].key == #[trigger] accs[j].key
            ==> accs[i] == accs[j]
}

/// Every key in the list is 32 bytes long, as a public key is.
pub open spec fn keys_well_formed(accs: Seq<AccountView>) -> bool {
    forall|i: int| 0 <= i < accs.len() ==> (#[trigger] accs[i]).key.len() == 32
}

/// Gives new data to the account at position `i`, at every position that holds it.
pub fn write_data(accounts: &mut Vec<AccountInfo>, i: usize, data: &Vec<u8>)
    requires
        i < old(accounts)@.len(),
    ensures
        final(accounts)@.len() == old(accounts)@.len(),
        final(accounts).deep_view() == with_data(
            old(accounts).deep_view(),
            old(accounts)@[i as int].key@,
            data@,
        ),
{
    let key = accounts[i].key;
    let n = accounts.len();
    let ghost old_accs = accounts.deep_view();
    let mut j: usize = 0;
    while j < n
        invariant
            0 <= j <= n,
            n == accounts@.len(),
            old_accs.len() == n,
            old_accs == old(accounts).deep_view(),
            key@ == old(accounts)@[i as int].key@,
            forall|k: int|
                #![trigger accounts@[k]]
                0 <= k < n ==> accounts@[k].deep_view() == (if k < j {
                    with_data(old_accs, key@, data@)[k]
                } else {
                    old_accs[k]
                }),
        decreases n - j,
    {
        if pubkey_eq(&accounts[j].key, &key) {
            let new_info = AccountInfo {
                key: accounts[j].key,
                owner: accounts[j].owner,
                lamports: accounts[j].lamports,
                data: copy_bytes(data),
                is_signer: accounts[j].is_signer,
            };
            accounts.set(j, new_info);
        }
        j = j + 1;
    }
    assert(accounts.deep_view() =~= with_data(old_accs, key@, data@));
}

/// Gives a new balance to the account at position `i`, at every position that holds it.
pub fn write_lamports(accounts: &mut Vec<AccountInfo>, i: usize, lamports: u64)
    requires
        i < old(accounts)@.len(),
    ensures
        final(accounts)@.len() == old(accounts)@.len(),
        final(accounts).deep_view() == with_lamports(
            old(accounts).deep_view(),
            old(accounts)@[i as int].key@,
            lamports,
        ),
{
    let key = accounts[i].key;
    let n = accounts.len();
    let ghost old_accs = accounts.deep_view();
    let mut j: usize = 0;
    while j < n
        invariant
            0 <= j <= n,
            n == accounts@.len(),
            old_accs.len() == n,
            old_accs == old(accounts).deep_view(),
            key@ == old(accounts)@[i as int].key@,
            forall|k: int|
                #![trigger accounts@[k]]
                0 <= k < n ==> accounts@[k].deep_view() == (if k < j {
                    with_lamports(old_accs, key@, lamports)[k]
                } else {
                    old_accs[k]
                }),
        decreases n - j,
    {
        if pubkey_eq(&accounts[j].key, &key) {
            let new_info = AccountInfo {
                key: accounts[j].key,
                owner: accounts[j].owner,
                lamports: lamports,
                data: copy_bytes(&accounts[j].data),
                is_signer: accounts[j].is_signer,
            };
            accounts.set(j, new_info);
        }
        j = j + 1;
    }
    assert(accounts.deep_view() =~= with_lamports(old_accs, key@, lamports));
}

/// Closes the account at position `i`, at every position that holds it: its
/// lamports, data length and owner become zero.
pub fn close_account_at(accounts: &mut Vec<AccountInfo>, i: usize)
    requires
        i < old(accounts)@.len(),
    ensures
        final(accounts)@.len() == old(accounts)@.len(),
        final(accounts).deep_view() == with_closed(
            old(accounts).deep_view(),
            old(accounts)@[i as int].key@,
        ),
{
    let key = accounts[i].key;
    let n = accounts.len();
    let ghost old_accs = accounts.deep_view();
    let mut j: usize = 0;
    while j < n
        invariant
            0 <= j <= n,
            n == accounts@.len(),
            old_accs.len() == n,
            old_accs == old(accounts).deep_view(),
            key@ == old(accounts)@[i as int].key@,
            forall|k: int|
                #![trigger accounts@[k]]
                0 <= k < n ==> accounts@[k].deep_view() == (if k < j {
                    with_closed(old_accs, key@)[k]
                } else {
                    old_accs[k]
                }),
        decreases n - j,
    {
        if pubkey_eq(&accounts[j].key, &key) {
            let zero: Pubkey = [0u8; 32];
            let new_info = AccountInfo {
                key: accounts[j].key,
                owner: zero,
                lamports: 0,
                data: Vec::new(),
                is_signer: accounts[j].is_signer,
            };
            assert(new_info.owner@ =~= Seq::new(32, |i: int| 0u8));
            accounts.set(j, new_info);
        }
        j = j + 1;
    }
    assert(accounts.deep_view() =~= with_closed(old_accs, key@));
}

} // verus!
