//! Instruction processors and the checks they share.
use crate::account_info::{AccountInfo, AccountView};
use crate::error::{token_error, ProgramError, TokenError};
use crate::pubkey::{pubkey_eq, ID, Pubkey};
use crate::state::multisig::{multisig_initialized, multisig_signer, Multisig, MULTISIG_LEN};
use crate::state::{load, load_result, Initializable, Transmutable};
use vstd::prelude::*;

pub mod amount_to_ui_amount;
pub mod approve;
pub mod approve_checked;
pub mod batch;
pub mod burn;
pub mod burn_checked;
pub mod close_account;
pub mod freeze_account;
pub mod get_account_data_size;
pub mod initialize_account;
pub mod initialize_account2;
pub mod initialize_account3;
pub mod initialize_immutable_owner;
pub mod initialize_mint;
pub mod initialize_mint2;
pub mod initialize_multisig;
pub mod initialize_multisig2;
pub mod mint_to;
pub mod mint_to_checked;
pub mod revoke;
pub mod set_authority;
pub mod shared;
pub mod sync_native;
pub mod thaw_account;
pub mod transfer;
pub mod transfer_checked;
pub mod ui_amount_to_amount;
pub mod withdraw_excess_lamports;

verus! {

broadcast use vstd::array::group_array_axioms;

/// Whether an account is owned by the token program.
pub open spec fn check_account_owner_result(a: AccountView) -> Result<(), ProgramError> {
    if a.owner != ID@ {
        Err(ProgramError::IncorrectProgramId)
    } else {
        Ok(())
    }
}

/// Checks that the account is owned by the token program.
pub fn check_account_owner(account_info: &AccountInfo) -> (r: Result<(), ProgramError>)
    ensures
        r == check_account_owner_result(account_info.deep_view()),
{
    if !pubkey_eq(&ID, account_info.owner()) {
        Err(ProgramError::IncorrectProgramId)
    } else {
        Ok(())
    }
}

// ---------------------------------------------------------------------------
// Owner validation.
// ---------------------------------------------------------------------------

/// An account that `validate_owner` reads as a multisig: the multisig's length,
/// owned by the token program.
pub open spec fn is_multisig_account(a: AccountView) -> bool {
    a.data.len() == 355 && a.owner == ID@
}

/// `s[i]` is the first of the accounts `s` with key `key`.
pub open spec fn first_with_key(s: Seq<AccountView>, key: Seq<u8>, i: int) -> bool {
    &&& 0 <= i < s.len()
    &&& s[i].key == key
    &&& forall|j: int| 0 <= j < i ==> s[j].key != key
}

/// One of the first `i` accounts of `s` has key `key`.
pub open spec fn key_provided_before(s: Seq<AccountView>, key: Seq<u8>, i: int) -> bool {
    exists|j: int| 0 <= j < i && #[trigger] s[j].key == key
}

/// The first account of `s` with key `key` is among the first `i` and did not sign.
pub open spec fn unsigned_claim_before(s: Seq<AccountView>, key: Seq<u8>, i: int) -> bool {
    exists|j: int| 0 <= j < i && #[trigger] first_with_key(s, key, j) && !s[j].is_signer
}

/// How many of the first `p` signer keys of the multisig data `d` are among the
/// keys of the accounts `s`.
pub open spec fn provided_count(d: Seq<u8>, s: Seq<AccountView>, p: nat) -> nat
    decreases p,
{
    if p == 0 {
        0
    } else {
        provided_count(d, s, (p - 1) as nat) + if key_provided_before(
            s,
            multisig_signer(d, p - 1),
            s.len() as int,
        ) {
            1nat
        } else {
            0nat
        }
    }
}

/// The multisig `d` is not satisfied by the accounts `s`: a signer key is first
/// provided by an account that did not sign, or fewer than `m` of its `n` keys
/// are provided.
pub open spec fn multisig_signatures_missing(d: Seq<u8>, s: Seq<AccountView>) -> bool {
    ||| exists|p: int|
        0 <= p < d[1] && #[trigger] unsigned_claim_before(
            s,
            multisig_signer(d, p),
            s.len() as int,
        )
    ||| provided_count(d, s, d[1] as nat) < d[0]
}

/// The outcome of `validate_owner`.
pub open spec fn validate_owner_result(
    expected_owner: Seq<u8>,
    owner: AccountView,
    signers: Seq<AccountView>,
) -> Result<(), ProgramError> {
    if expected_owner != owner.key {
        Err(token_error(TokenError::OwnerMismatch))
    } else if is_multisig_account(owner) {
        match multisig_initialized(owner.data) {
            Err(e) => Err(e),
            Ok(false) => Err(ProgramError::UninitializedAccount),
            Ok(true) => if multisig_signatures_missing(owner.data, signers) {
                Err(ProgramError::MissingRequiredSignature)
            } else {
                Ok(())
            },
        }
    } else if !owner.is_signer {
        Err(ProgramError::MissingRequiredSignature)
    } else {
        Ok(())
    }
}

/// An initialized multisig holds at most `MAX_SIGNERS` signers.
pub open spec fn multisig_well_formed(a: AccountView) -> bool {
    is_multisig_account(a) && multisig_initialized(a.data) == Ok::<bool, ProgramError>(true)
        ==> a.data[1] <= 11
}

/// The account at position `i`, if there is one, is a well-formed multisig or
/// no multisig: the account an instruction validates its authority with.
pub open spec fn authority_well_formed(accs: Seq<AccountView>, i: int) -> bool {
    0 <= i < accs.len() ==> multisig_well_formed(accs[i])
}

/// The number of `true` flags among the first `k`.
pub open spec fn count_true(s: Seq<bool>, k: nat) -> nat
    decreases k,
{
    if k == 0 {
        0
    } else {
        count_true(s, (k - 1) as nat) + if s[k - 1] {
            1nat
        } else {
            0nat
        }
    }
}

proof fn lemma_count_true_set(s: Seq<bool>, p: int, k: nat)
    requires
        0 <= p < s.len(),
        k <= s.len(),
        !s[p],
    ensures
        count_true(s.update(p, true), k) == count_true(s, k) + if p < k {
            1nat
        } else {
            0nat
        },
    decreases k,
{
    if k > 0 {
        lemma_count_true_set(s, p, (k - 1) as nat);
    }
}

proof fn lemma_count_true_none(s: Seq<bool>, k: nat)
    requires
        k <= s.len(),
        forall|p: int| 0 <= p < s.len() ==> !s[p],
    ensures
        count_true(s, k) == 0,
    decreases k,
{
    if k > 0 {
        lemma_count_true_none(s, (k - 1) as nat);
    }
}

proof fn lemma_count_true_le(s: Seq<bool>, k: nat)
    ensures
        count_true(s, k) <= k,
    decreases k,
{
    if k > 0 {
        lemma_count_true_le(s, (k - 1) as nat);
    }
}

proof fn lemma_count_true_provided(s: Seq<bool>, d: Seq<u8>, signers: Seq<AccountView>, k: nat)
    requires
        k <= s.len(),
        forall|p: int|
            0 <= p < k ==> s[p] == key_provided_before(
                signers,
                #[trigger] multisig_signer(d, p),
                signers.len() as int,
            ),
    ensures
        count_true(s, k) == provided_count(d, signers, k),
    decreases k,
{
    if k > 0 {
        lemma_count_true_provided(s, d, signers, (k - 1) as nat);
        assert(s[k - 1] == key_provided_before(
            signers,
            multisig_signer(d, k - 1),
            signers.len() as int,
        ));
    }
}

/// Validates that the owner (or delegate) `expected_owner` authorized the
/// instruction: `owner_account_info` must have that key and either sign, or be
/// an initialized multisig whose required number of signers are among
/// `signers` and signed.
pub fn validate_owner(
    expected_owner: &Pubkey,
    owner_account_info: &AccountInfo,
    signers: &[AccountInfo],
) -> (r: Result<(), ProgramError>)
    requires
        multisig_well_formed(owner_account_info.deep_view()),
    ensures
        r == validate_owner_result(
            expected_owner@,
            owner_account_info.deep_view(),
            signers.deep_view(),
        ),
{
    if !pubkey_eq(expected_owner, owner_account_info.key()) {
        return Err(TokenError::OwnerMismatch.into());
    }
    if owner_account_info.data_len() == MULTISIG_LEN && pubkey_eq(
        owner_account_info.owner(),
        &ID,
    ) {
        let multisig: Multisig = match load(owner_account_info.data()) {
            Ok(ms) => ms,
            Err(e) => {
                proof {
                    assert(load_result::<Multisig>(owner_account_info.data@) == Err::<
                        Seq<u8>,
                        ProgramError,
                    >(e));
                    assert(<Multisig as Initializable>::initialized(owner_account_info.data@)
                        == multisig_initialized(owner_account_info.data@));
                }
                return Err(e);
            },
        };
        proof {
            multisig.lemma_len();
        }
        let n = multisig.n() as usize;
        let m = multisig.m();
        let ghost d = multisig@;
        let ghost s = signers.deep_view();
        let mut num_signers: u8 = 0;
        let mut matched: [bool; 11] = [false; 11];
        proof {
            lemma_count_true_none(matched@, n as nat);
        }
        let len = signers.len();
        let mut i: usize = 0;
        while i < len
            invariant
                0 <= i <= len,
                len == s.len(),
                s == signers.deep_view(),
                n <= 11,
                n == d[1],
                m == d[0],
                d.len() == 355,
                d == multisig@,
                d == owner_account_info.data@,
                multisig_initialized(d) == Ok::<bool, ProgramError>(true),
                expected_owner@ == owner_account_info.key@,
                is_multisig_account(owner_account_info.deep_view()),
                matched@.len() == 11,
                forall|p: int|
                    0 <= p < n ==> matched@[p] == key_provided_before(
                        s,
                        #[trigger] multisig_signer(d, p),
                        i as int,
                    ),
                forall|p: int|
                    0 <= p < n ==> !unsigned_claim_before(
                        s,
                        #[trigger] multisig_signer(d, p),
                        i as int,
                    ),
                num_signers == count_true(matched@, n as nat),
            decreases len - i,
        {
            let signer = &signers[i];
            let mut pos: usize = 0;
            while pos < n
                invariant
                    0 <= pos <= n,
                    0 <= i < len,
                    len == s.len(),
                    s == signers.deep_view(),
                    signer.deep_view() == s[i as int],
                    n <= 11,
                    n == d[1],
                    d.len() == 355,
                    d == multisig@,
                    d == owner_account_info.data@,
                    multisig_initialized(d) == Ok::<bool, ProgramError>(true),
                    expected_owner@ == owner_account_info.key@,
                    is_multisig_account(owner_account_info.deep_view()),
                    matched@.len() == 11,
                    forall|p: int|
                        0 <= p < n ==> matched@[p] == key_provided_before(
                            s,
                            #[trigger] multisig_signer(d, p),
                            if p < pos {
                                i + 1
                            } else {
                                i as int
                            },
                        ),
                    forall|p: int|
                        0 <= p < n ==> !unsigned_claim_before(
                            s,
                            #[trigger] multisig_signer(d, p),
                            if p < pos {
                                i + 1
                            } else {
                                i as int
                            },
                        ),
                    num_signers == count_true(matched@, n as nat),
                decreases n - pos,
            {
                let ghost key_p = multisig_signer(d, pos as int);
                if pubkey_eq(multisig.signer(pos), signer.key()) && !matched[pos] {
                    proof {
                        assert(first_with_key(s, key_p, i as int));
                    }
                    if !signer.is_signer() {
                        proof {
                            assert(unsigned_claim_before(s, key_p, s.len() as int));
                            assert(multisig_signatures_missing(d, s));
                        }
                        return Err(ProgramError::MissingRequiredSignature);
                    }
                    proof {
                        lemma_count_true_set(matched@, pos as int, n as nat);
                        lemma_count_true_le(matched@.update(pos as int, true), n as nat);
                        assert(key_provided_before(s, key_p, i + 1));
                        assert forall|p: int|
                            0 <= p < n && p != pos implies !unsigned_claim_before(
                            s,
                            #[trigger] multisig_signer(d, p),
                            if p < pos + 1 {
                                i + 1
                            } else {
                                i as int
                            },
                        ) by {
                            if p < pos && unsigned_claim_before(s, multisig_signer(d, p), i + 1) {
                                let j = choose|j: int|
                                    0 <= j < i + 1 && #[trigger] first_with_key(
                                        s,
                                        multisig_signer(d, p),
                                        j,
                                    ) && !s[j].is_signer;
                                assert(j < i || s[j].is_signer);
                                assert(unsigned_claim_before(s, multisig_signer(d, p), i as int));
                            }
                        }
                        assert(!unsigned_claim_before(s, key_p, i + 1)) by {
                            if unsigned_claim_before(s, key_p, i + 1) {
                                let j = choose|j: int|
                                    0 <= j < i + 1 && #[trigger] first_with_key(s, key_p, j)
                                        && !s[j].is_signer;
                                assert(j < i || s[j].is_signer);
                                assert(unsigned_claim_before(s, key_p, i as int));
                            }
                        }
                    }
                    matched[pos] = true;
                    num_signers = num_signers + 1;
                } else {
                    proof {
                        if key_provided_before(s, key_p, i + 1) && !key_provided_before(
                            s,
                            key_p,
                            i as int,
                        ) {
                            assert(s[i as int].key == key_p);
                        }
                        assert(key_provided_before(s, key_p, i + 1) == key_provided_before(
                            s,
                            key_p,
                            i as int,
                        ));
                        if unsigned_claim_before(s, key_p, i + 1) {
                            let j = choose|j: int|
                                0 <= j < i + 1 && #[trigger] first_with_key(s, key_p, j)
                                    && !s[j].is_signer;
                            if j == i {
                                assert(s[i as int].key == key_p);
                                assert(!key_provided_before(s, key_p, i as int));
                            }
                            assert(unsigned_claim_before(s, key_p, i as int));
                        }
                    }
                }
                pos = pos + 1;
            }
            i = i + 1;
        }
        proof {
            lemma_count_true_provided(matched@, d, s, n as nat);
            if multisig_signatures_missing(d, s) {
                if exists|p: int|
                    0 <= p < d[1] && #[trigger] unsigned_claim_before(
                        s,
                        multisig_signer(d, p),
                        s.len() as int,
                    ) {
                    let p = choose|p: int|
                        0 <= p < d[1] && #[trigger] unsigned_claim_before(
                            s,
                            multisig_signer(d, p),
                            s.len() as int,
                        );
                    assert(!unsigned_claim_before(s, multisig_signer(d, p), i as int));
                }
            }
        }
        if num_signers < m {
            return Err(ProgramError::MissingRequiredSignature);
        }
    } else if !owner_account_info.is_signer() {
        return Err(ProgramError::MissingRequiredSignature);
    }
    Ok(())
}

} // verus!

verus! {

/// The outcome of a processor as a value: the accounts after it, or its error.
pub open spec fn outcome(r: Result<(), ProgramError>, accs: Seq<AccountView>) -> Result<
    Seq<AccountView>,
    ProgramError,
> {
    match r {
        Ok(()) => Ok(accs),
        Err(e) => Err(e),
    }
}

/// The accounts from position `k` on.
pub fn remaining_accounts(accounts: &Vec<AccountInfo>, k: usize) -> (r: &[AccountInfo])
    requires
        k <= accounts@.len(),
    ensures
        r.deep_view() == accounts.deep_view().subrange(k as int, accounts@.len() as int),
{
    let r = vstd::slice::slice_subrange(accounts.as_slice(), k, accounts.len());
    assert(r.deep_view() =~= accounts.deep_view().subrange(k as int, accounts@.len() as int));
    r
}

/// The little-endian `u64` in the first eight bytes of instruction data.
pub open spec fn data_u64(data: Seq<u8>) -> u64 {
    vstd::bytes::spec_u64_from_le_bytes(data.subrange(0, 8))
}

/// Reads the little-endian `u64` in the first eight bytes.
pub fn read_u64(data: &[u8]) -> (r: u64)
    requires
        data@.len() >= 8,
    ensures
        r == data_u64(data@),
{
    vstd::bytes::u64_from_le_bytes(vstd::slice::slice_subrange(data, 0, 8))
}

/// Maximum number of digits in a formatted `u64`: the maximum number of
/// decimals (`u8::MAX`) plus the decimal point and the leading zero.
pub const MAX_FORMATTED_DIGITS: usize = 257;

} // verus!
