//! Deciding whether an instruction runs without panicking or overflowing.
//!
//! The processors leave out by their preconditions the inputs on which the
//! program panics: an authority that is a multisig recording more than the
//! maximum number of signers, a rent computation that overflows a `u64`, and
//! amounts formatted with twenty or more decimals. These functions decide those preconditions, so that callers can
//! test them before running an instruction.
use crate::account_info::{AccountInfo, AccountView};
use crate::entrypoint::{discriminated_admissible, instruction_admissible};
use crate::error::ProgramError;
use crate::processor::amount_to_ui_amount::amount_to_ui_amount_panics;
use crate::processor::{authority_well_formed, check_account_owner, multisig_well_formed, read_u64};
use crate::pubkey::{pubkey_eq, ID};
use crate::rent::{
    first_data_len, rent_account_computable, rent_computable, rent_sysvar_view,
    rent_value_computable, ACCOUNT_STORAGE_OVERHEAD, DEFAULT_EXEMPTION_THRESHOLD_BITS, RENT_ID,
};
use crate::state::mint::Mint;
use crate::state::{load, read_array, u64_from_le};
use vstd::prelude::*;

verus! {

/// Whether the account at position `i`, if there is one, is a well-formed
/// multisig or no multisig.
pub fn authority_valid(accounts: &[AccountInfo], i: usize) -> (r: bool)
    ensures
        r == authority_well_formed(accounts.deep_view(), i as int),
{
    if i >= accounts.len() {
        return true;
    }
    let a = &accounts[i];
    assert(accounts.deep_view()[i as int] == a.deep_view());
    !(a.data.len() == 355 && pubkey_eq(&a.owner, &ID) && a.data[2] == 1 && a.data[1] > 11)
}

/// Whether the rent computation for an account of `data_len` bytes fits in a
/// `u64` with the rent sysvar bytes `rent`.
pub fn rent_valid(rent: &[u8], data_len: usize) -> (r: bool)
    ensures
        r == rent_computable(rent@, data_len),
{
    if rent.len() < 17 {
        return true;
    }
    let per_byte_year = u64_from_le(&read_array::<8>(rent, 0));
    let threshold = u64_from_le(&read_array::<8>(rent, 8));
    let len = data_len as u64;
    if len > u64::MAX - ACCOUNT_STORAGE_OVERHEAD {
        return false;
    }
    if per_byte_year == 0 {
        assert((ACCOUNT_STORAGE_OVERHEAD + data_len) * 0 == 0) by (nonlinear_arith);
        return true;
    }
    let bytes = ACCOUNT_STORAGE_OVERHEAD + len;
    match bytes.checked_mul(per_byte_year) {
        None => false,
        Some(yearly) => {
            if threshold == DEFAULT_EXEMPTION_THRESHOLD_BITS {
                yearly.checked_mul(2).is_some()
            } else {
                true
            }
        },
    }
}

/// The data length of the first account (zero without accounts).
fn first_len(accounts: &[AccountInfo]) -> (r: usize)
    ensures
        r == first_data_len(accounts.deep_view()),
{
    if accounts.len() > 0 {
        assert(accounts.deep_view()[0] == accounts@[0].deep_view());
        accounts[0].data.len()
    } else {
        0
    }
}

/// Whether the rent computation for `data_len` bytes from the account at
/// position `i`, if it is the rent sysvar, fits in a `u64`.
pub fn rent_account_valid(accounts: &[AccountInfo], i: usize, data_len: usize) -> (r: bool)
    ensures
        r == rent_account_computable(accounts.deep_view(), i as int, data_len as int),
{
    if i >= accounts.len() {
        return true;
    }
    assert(accounts.deep_view()[i as int] == accounts@[i as int].deep_view());
    !pubkey_eq(&accounts[i].key, &RENT_ID) || rent_valid(accounts[i].data.as_slice(), data_len)
}

/// Whether the rent computation for `data_len` bytes from the runtime's rent
/// value fits in a `u64`.
pub fn rent_value_valid(rent_sysvar: &Result<Vec<u8>, ProgramError>, data_len: usize) -> (r: bool)
    ensures
        r == rent_value_computable(rent_sysvar_view(rent_sysvar), data_len as int),
{
    match rent_sysvar {
        Ok(v) => rent_valid(v.as_slice(), data_len),
        Err(_) => true,
    }
}

/// Whether `AmountToUiAmount` would format its amount with twenty or more
/// decimals (see `amount_to_ui_amount_panics`).
pub fn amount_to_ui_amount_would_panic(accounts: &[AccountInfo], data: &[u8]) -> (r: bool)
    ensures
        r == amount_to_ui_amount_panics(accounts.deep_view(), data@),
{
    if data.len() != 8 || accounts.len() < 1 {
        return false;
    }
    if check_account_owner(&accounts[0]).is_err() {
        return false;
    }
    let mint: Mint = match load(accounts[0].data()) {
        Ok(m) => m,
        Err(_) => return false,
    };
    read_u64(data) != 0 && mint.decimals() >= 20
}

/// Whether the instruction with discriminator `d` and data `rest` runs on the
/// accounts without panicking or overflowing (see `discriminated_admissible`).
pub fn discriminated_valid(
    accounts: &[AccountInfo],
    d: u8,
    rest: &[u8],
    rent_sysvar: &Result<Vec<u8>, ProgramError>,
) -> (r: bool)
    ensures
        r == discriminated_admissible(accounts.deep_view(), d, rest@, rent_sysvar_view(rent_sysvar)),
{
    let len0 = first_len(accounts);
    match d {
        0 => rent_account_valid(accounts, 1, 82),
        1 => rent_account_valid(accounts, 3, len0),
        2 => rent_account_valid(accounts, 1, len0),
        16 => rent_account_valid(accounts, 2, len0),
        18 | 19 => rent_value_valid(rent_sysvar, len0),
        20 => rent_value_valid(rent_sysvar, 82),
        38 => rent_value_valid(rent_sysvar, len0) && authority_valid(accounts, 2),
        5 | 6 => authority_valid(accounts, 1),
        3 | 4 | 7 | 8 | 9 | 10 | 11 | 14 | 15 => authority_valid(accounts, 2),
        12 | 13 => authority_valid(accounts, 3),
        23 => !amount_to_ui_amount_would_panic(accounts, rest),
        _ => true,
    }
}

/// Whether a regular instruction runs on the accounts without panicking or
/// overflowing (see `instruction_admissible`).
pub fn instruction_valid(
    accounts: &[AccountInfo],
    instruction_data: &[u8],
    rent_sysvar: &Result<Vec<u8>, ProgramError>,
) -> (r: bool)
    ensures
        r == instruction_admissible(
            accounts.deep_view(),
            instruction_data@,
            rent_sysvar_view(rent_sysvar),
        ),
{
    if instruction_data.len() == 0 {
        return true;
    }
    let rest = vstd::slice::slice_subrange(instruction_data, 1, instruction_data.len());
    discriminated_valid(accounts, instruction_data[0], rest, rent_sysvar)
}

} // verus!
