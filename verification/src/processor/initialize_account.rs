//! `InitializeAccount`: the owner is an account, the rent sysvar follows.
use crate::account_info::{AccountInfo, AccountView};
use crate::error::ProgramError;
use crate::processor::outcome;
use crate::processor::shared;
use crate::processor::shared::initialize_account::initialize_account_result;
use crate::rent::{first_data_len, rent_account_computable, rent_sysvar_view};
use vstd::prelude::*;

verus! {

/// Processes an `InitializeAccount` instruction: the account, its mint, its
/// owner and the rent sysvar are the first four accounts.
pub fn process_initialize_account(
    accounts: &mut Vec<AccountInfo>,
    rent_sysvar: &Result<Vec<u8>, ProgramError>,
) -> (r: Result<(), ProgramError>)
    requires
        rent_account_computable(
            old(accounts).deep_view(),
            3,
            first_data_len(old(accounts).deep_view()),
        ),
    ensures
        outcome(r, final(accounts).deep_view()) == initialize_account_result(
            old(accounts).deep_view(),
            None,
            true,
            rent_sysvar_view(rent_sysvar),
        ),
        r is Err ==> final(accounts).deep_view() == old(accounts).deep_view(),
{
    shared::initialize_account::process_initialize_account(accounts, None, true, rent_sysvar)
}

} // verus!
