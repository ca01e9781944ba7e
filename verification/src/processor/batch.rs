//! Batches: several instructions in one.
//!
//! Each instruction of a batch is preceded by a header of two bytes: the number
//! of accounts it takes and the length of its data. The instructions take
//! consecutive windows of the account list; an account changed by one
//! instruction is seen changed by the later ones, at every position of the list
//! that holds it.
use crate::account_info::{copy_bytes, AccountInfo, AccountView};
use crate::admissible::instruction_valid;
use crate::entrypoint::{
    inner_process_instruction, instruction_admissible, instruction_outcome, instruction_result,
};
use crate::error::{token_error, ProgramError, TokenError};
use crate::processor::{check_account_owner, check_account_owner_result};
use crate::rent::rent_sysvar_view;
use vstd::prelude::*;

verus! {

/// The size of the header of each instruction of a batch.
pub const IX_HEADER_SIZE: usize = 2;

/// The last position of `s` that holds an account with key `key`, or -1.
pub open spec fn last_with_key(s: Seq<AccountView>, key: Seq<u8>) -> int
    decreases s.len(),
{
    if s.len() == 0 {
        -1
    } else if s.last().key == key {
        s.len() - 1
    } else {
        last_with_key(s.drop_last(), key)
    }
}

/// The accounts `accs` after the accounts of `window`, taken from them, were
/// changed: every account of `accs` whose key is in the window takes the
/// window's owner, lamports and data for that key.
pub open spec fn merge_accounts(accs: Seq<AccountView>, window: Seq<AccountView>) -> Seq<
    AccountView,
> {
    Seq::new(
        accs.len(),
        |i: int|
            {
                let k = last_with_key(window, accs[i].key);
                if k < 0 {
                    accs[i]
                } else {
                    AccountView {
                        owner: window[k].owner,
                        lamports: window[k].lamports,
                        data: window[k].data,
                        ..accs[i]
                    }
                }
            },
    )
}

/// One instruction of a batch on its accounts `window`: a transfer's source
/// and destination must be owned by the token program, since the runtime checks
/// ownership only at the end of the batch.
pub open spec fn batch_step_result(
    window: Seq<AccountView>,
    ix: Seq<u8>,
    rent: Result<Seq<u8>, ProgramError>,
) -> Result<(Seq<AccountView>, Option<Seq<u8>>), ProgramError> {
    if ix[0] == 3 {
        if window.len() < 2 {
            Err(ProgramError::NotEnoughAccountKeys)
        } else if check_account_owner_result(window[0]) is Err {
            Err(ProgramError::IncorrectProgramId)
        } else if check_account_owner_result(window[1]) is Err {
            Err(ProgramError::IncorrectProgramId)
        } else {
            instruction_result(window, ix, rent)
        }
    } else if ix[0] == 12 {
        if window.len() < 3 {
            Err(ProgramError::NotEnoughAccountKeys)
        } else if check_account_owner_result(window[0]) is Err {
            Err(ProgramError::IncorrectProgramId)
        } else if check_account_owner_result(window[2]) is Err {
            Err(ProgramError::IncorrectProgramId)
        } else {
            instruction_result(window, ix, rent)
        }
    } else {
        instruction_result(window, ix, rent)
    }
}

/// The step reaches the instruction itself (its ownership checks pass).
pub open spec fn batch_step_runs(window: Seq<AccountView>, ix: Seq<u8>) -> bool {
    if ix[0] == 3 {
        window.len() >= 2 && check_account_owner_result(window[0]) is Ok
            && check_account_owner_result(window[1]) is Ok
    } else if ix[0] == 12 {
        window.len() >= 3 && check_account_owner_result(window[0]) is Ok
            && check_account_owner_result(window[2]) is Ok
    } else {
        true
    }
}

/// What the rest `data` of a batch does to the accounts `accs`, its next
/// instruction taking the accounts from position `start` on; `ret` is the
/// return data set so far. The outcome is the accounts after the batch and the
/// last return data set, or the first error.
pub open spec fn batch_result(
    accs: Seq<AccountView>,
    start: int,
    data: Seq<u8>,
    rent: Result<Seq<u8>, ProgramError>,
    ret: Option<Seq<u8>>,
) -> Result<(Seq<AccountView>, Option<Seq<u8>>), ProgramError>
    decreases data.len(),
{
    if data.len() < 2 {
        Err(token_error(TokenError::InvalidInstruction))
    } else {
        let n = data[0] as int;
        let off = 2 + data[1] as int;
        if data.len() < off || off == 2 {
            Err(token_error(TokenError::InvalidInstruction))
        } else if accs.len() - start < n {
            Err(ProgramError::NotEnoughAccountKeys)
        } else {
            let window = accs.subrange(start, start + n);
            let ix = data.subrange(2, off);
            match batch_step_result(window, ix, rent) {
                Err(e) => Err(e),
                Ok(step) => {
                    let accs2 = merge_accounts(accs, step.0);
                    let ret2 = if step.1 is Some {
                        step.1
                    } else {
                        ret
                    };
                    if off == data.len() {
                        Ok((accs2, ret2))
                    } else {
                        batch_result(
                            accs2,
                            start + n,
                            data.subrange(off, data.len() as int),
                            rent,
                            ret2,
                        )
                    }
                },
            }
        }
    }
}

/// Every instruction that the batch runs is admissible on its window (see
/// `instruction_admissible`), in the state the batch has reached.
pub open spec fn batch_admissible(
    accs: Seq<AccountView>,
    start: int,
    data: Seq<u8>,
    rent: Result<Seq<u8>, ProgramError>,
) -> bool
    decreases data.len(),
{
    if data.len() < 2 {
        true
    } else {
        let n = data[0] as int;
        let off = 2 + data[1] as int;
        if data.len() < off || off == 2 || accs.len() - start < n {
            true
        } else {
            let window = accs.subrange(start, start + n);
            let ix = data.subrange(2, off);
            batch_step_runs(window, ix) ==> {
                &&& instruction_admissible(window, ix, rent)
                &&& match instruction_result(window, ix, rent) {
                    Err(_) => true,
                    Ok(step) => off == data.len() || batch_admissible(
                        merge_accounts(accs, step.0),
                        start + n,
                        data.subrange(off, data.len() as int),
                        rent,
                    ),
                }
            }
        }
    }
}

pub(crate) proof fn lemma_last_with_key_range(s: Seq<AccountView>, key: Seq<u8>)
    ensures
        -1 <= last_with_key(s, key) < s.len(),
        last_with_key(s, key) >= 0 ==> s[last_with_key(s, key)].key == key,
    decreases s.len(),
{
    if s.len() > 0 && s.last().key != key {
        lemma_last_with_key_range(s.drop_last(), key);
    }
}

proof fn lemma_last_with_key_step(s: Seq<AccountView>, key: Seq<u8>, j: int)
    requires
        0 <= j < s.len(),
    ensures
        last_with_key(s.subrange(0, j + 1), key) == if s[j].key == key {
            j
        } else {
            last_with_key(s.subrange(0, j), key)
        },
{
    assert(s.subrange(0, j + 1).drop_last() =~= s.subrange(0, j));
}

/// Copies a list of accounts.
fn copy_accounts(accounts: &[AccountInfo], lo: usize, hi: usize) -> (r: Vec<AccountInfo>)
    requires
        lo <= hi <= accounts@.len(),
    ensures
        r.deep_view() == accounts.deep_view().subrange(lo as int, hi as int),
{
    let mut r: Vec<AccountInfo> = Vec::new();
    let mut i: usize = lo;
    while i < hi
        invariant
            lo <= i <= hi <= accounts@.len(),
            r.deep_view() =~= accounts.deep_view().subrange(lo as int, i as int),
        decreases hi - i,
    {
        let ghost prev = r.deep_view();
        r.push(accounts[i].duplicate());
        assert(r.deep_view() =~= prev.push(accounts.deep_view()[i as int]));
        i = i + 1;
    }
    r
}

/// Writes the accounts of `window` back to every position of `accounts` that
/// holds one of them.
fn merge_window(accounts: &mut Vec<AccountInfo>, window: &Vec<AccountInfo>)
    ensures
        final(accounts).deep_view() == merge_accounts(old(accounts).deep_view(), window.deep_view()),
{
    let ghost old_accs = accounts.deep_view();
    let ghost w = window.deep_view();
    let n = accounts.len();
    let m = window.len();
    let mut i: usize = 0;
    while i < n
        invariant
            0 <= i <= n,
            n == accounts@.len(),
            m == w.len(),
            w == window.deep_view(),
            old_accs.len() == n,
            forall|k: int|
                #![trigger accounts@[k]]
                0 <= k < n ==> accounts@[k].deep_view() == (if k < i {
                    merge_accounts(old_accs, w)[k]
                } else {
                    old_accs[k]
                }),
        decreases n - i,
    {
        let key = accounts[i].key;
        let mut found: usize = m;
        let mut j: usize = 0;
        while j < m
            invariant
                0 <= j <= m,
                m == w.len(),
                w == window.deep_view(),
                found <= m,
                found == m <==> last_with_key(w.subrange(0, j as int), key@) < 0,
                found < m ==> found == last_with_key(w.subrange(0, j as int), key@),
            decreases m - j,
        {
            proof {
                lemma_last_with_key_step(w, key@, j as int);
                lemma_last_with_key_range(w.subrange(0, j as int), key@);
            }
            if crate::pubkey::pubkey_eq(&window[j].key, &key) {
                found = j;
            }
            j = j + 1;
        }
        proof {
            assert(w.subrange(0, m as int) =~= w);
            lemma_last_with_key_range(w, key@);
        }
        if found < m {
            let new_info = AccountInfo {
                key: accounts[i].key,
                owner: window[found].owner,
                lamports: window[found].lamports,
                data: copy_bytes(&window[found].data),
                is_signer: accounts[i].is_signer,
            };
            accounts.set(i, new_info);
        }
        proof {
            assert(accounts@[i as int].deep_view() == merge_accounts(old_accs, w)[i as int]);
        }
        i = i + 1;
    }
    assert(accounts.deep_view() =~= merge_accounts(old_accs, w));
}

/// Processes a batch if every instruction it runs is admissible on its window
/// (see `batch_admissible`), and answers `None`, changing nothing, as soon as
/// one is not. `instruction_data` is the data after the batch discriminator.
#[verifier::spinoff_prover]
#[verifier::rlimit(80)]
pub fn try_process_batch(
    accounts: &mut Vec<AccountInfo>,
    instruction_data: &[u8],
    rent_sysvar: &Result<Vec<u8>, ProgramError>,
) -> (r: Option<Result<Option<Vec<u8>>, ProgramError>>)
    ensures
        r is None <==> !batch_admissible(
            old(accounts).deep_view(),
            0,
            instruction_data@,
            rent_sysvar_view(rent_sysvar),
        ),
        r matches Some(x) ==> instruction_outcome(x, final(accounts).deep_view()) == batch_result(
            old(accounts).deep_view(),
            0,
            instruction_data@,
            rent_sysvar_view(rent_sysvar),
            None,
        ),
        r is None || r->0 is Err ==> final(accounts).deep_view() == old(accounts).deep_view(),
{
    let ghost rent = rent_sysvar_view(rent_sysvar);
    let ghost goal = batch_result(accounts.deep_view(), 0, instruction_data@, rent, None);
    let ghost admissible = batch_admissible(accounts.deep_view(), 0, instruction_data@, rent);
    let mut work = copy_accounts(accounts.as_slice(), 0, accounts.len());
    assert(work.deep_view() =~= accounts.deep_view());
    let mut data = instruction_data;
    let mut start: usize = 0;
    let mut ret: Option<Vec<u8>> = None;
    loop
        invariant
            start <= work@.len(),
            rent == rent_sysvar_view(rent_sysvar),
            goal == batch_result(
                work.deep_view(),
                start as int,
                data@,
                rent,
                match ret {
                    Some(v) => Some(v@),
                    None => None,
                },
            ),
            admissible == batch_admissible(work.deep_view(), start as int, data@, rent),
            accounts.deep_view() == old(accounts).deep_view(),
            goal == batch_result(old(accounts).deep_view(), 0, instruction_data@, rent, None),
            admissible == batch_admissible(old(accounts).deep_view(), 0, instruction_data@, rent),
        decreases data@.len(),
    {
        if data.len() < IX_HEADER_SIZE {
            return Some(Err(TokenError::InvalidInstruction.into()));
        }
        let expected_accounts = data[0] as usize;
        let data_offset = IX_HEADER_SIZE + data[1] as usize;
        if data.len() < data_offset || data_offset == IX_HEADER_SIZE {
            return Some(Err(TokenError::InvalidInstruction.into()));
        }
        if work.len() - start < expected_accounts {
            return Some(Err(ProgramError::NotEnoughAccountKeys));
        }
        let mut window = copy_accounts(work.as_slice(), start, start + expected_accounts);
        let ix_data = vstd::slice::slice_subrange(data, IX_HEADER_SIZE, data_offset);
        if ix_data[0] == 3 {
            if window.len() < 2 {
                return Some(Err(ProgramError::NotEnoughAccountKeys));
            }
            if let Err(e) = check_account_owner(&window[0]) {
                return Some(Err(e));
            }
            if let Err(e) = check_account_owner(&window[1]) {
                return Some(Err(e));
            }
        } else if ix_data[0] == 12 {
            if window.len() < 3 {
                return Some(Err(ProgramError::NotEnoughAccountKeys));
            }
            if let Err(e) = check_account_owner(&window[0]) {
                return Some(Err(e));
            }
            if let Err(e) = check_account_owner(&window[2]) {
                return Some(Err(e));
            }
        }
        if !instruction_valid(window.as_slice(), ix_data, rent_sysvar) {
            return None;
        }
        let step = match inner_process_instruction(&mut window, ix_data, rent_sysvar) {
            Ok(step) => step,
            Err(e) => return Some(Err(e)),
        };
        merge_window(&mut work, &window);
        start = start + expected_accounts;
        if step.is_some() {
            ret = step;
        }
        if data_offset == data.len() {
            *accounts = work;
            return Some(Ok(ret));
        }
        data = vstd::slice::slice_subrange(data, data_offset, data.len());
    }
}

/// Processes a batch: `instruction_data` is the data after the batch
/// discriminator. The accounts change only if every instruction succeeds.
pub fn process_batch(
    accounts: &mut Vec<AccountInfo>,
    instruction_data: &[u8],
    rent_sysvar: &Result<Vec<u8>, ProgramError>,
) -> (r: Result<Option<Vec<u8>>, ProgramError>)
    requires
        batch_admissible(
            old(accounts).deep_view(),
            0,
            instruction_data@,
            rent_sysvar_view(rent_sysvar),
        ),
    ensures
        instruction_outcome(r, final(accounts).deep_view()) == batch_result(
            old(accounts).deep_view(),
            0,
            instruction_data@,
            rent_sysvar_view(rent_sysvar),
            None,
        ),
        r is Err ==> final(accounts).deep_view() == old(accounts).deep_view(),
{
    match try_process_batch(accounts, instruction_data, rent_sysvar) {
        Some(r) => r,
        None => {
            proof {
                assert(false);
            }
            Err(ProgramError::InvalidArgument)
        },
    }
}

} // verus!
