//! `InitializeMint`: the rent sysvar is an account.
use crate::account_info::{AccountInfo, AccountView};
use crate::error::ProgramError;
use crate::processor::outcome;
use crate::processor::shared;
use crate::processor::shared::initialize_mint::initialize_mint_result;
use crate::rent::{rent_account_computable, rent_sysvar_view};
use vstd::prelude::*;

verus! {

/// Processes an `InitializeMint` instruction: the mint and the rent sysvar are
/// the first two accounts.
pub fn process_initialize_mint(
    accounts: &mut Vec<AccountInfo>,
    instruction_data: &[u8],
    rent_sysvar: &Result<Vec<u8>, ProgramError>,
) -> (r: Result<(), ProgramError>)
    requires
        rent_account_computable(old(accounts).deep_view(), 1, 82),
    ensures
        outcome(r, final(accounts).deep_view()) == initialize_mint_result(
            old(accounts).deep_view(),
            instruction_data@,
            true,
            rent_sysvar_view(rent_sysvar),
        ),
        r is Err ==> final(accounts).deep_view() == old(accounts).deep_view(),
{
    shared::initialize_mint::process_initialize_mint(accounts, instruction_data, true, rent_sysvar)
}

} // verus!
