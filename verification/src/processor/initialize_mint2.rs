//! `InitializeMint2`: the rent comes from the runtime.
use crate::account_info::{AccountInfo, AccountView};
use crate::error::ProgramError;
use crate::processor::outcome;
use crate::processor::shared;
use crate::processor::shared::initialize_mint::initialize_mint_result;
use crate::rent::{rent_sysvar_view, rent_value_computable};
use vstd::prelude::*;

verus! {

/// Processes an `InitializeMint2` instruction: the mint is the first account.
pub fn process_initialize_mint2(
    accounts: &mut Vec<AccountInfo>,
    instruction_data: &[u8],
    rent_sysvar: &Result<Vec<u8>, ProgramError>,
) -> (r: Result<(), ProgramError>)
    requires
        rent_value_computable(rent_sysvar_view(rent_sysvar), 82),
    ensures
        outcome(r, final(accounts).deep_view()) == initialize_mint_result(
            old(accounts).deep_view(),
            instruction_data@,
            false,
            rent_sysvar_view(rent_sysvar),
        ),
        r is Err ==> final(accounts).deep_view() == old(accounts).deep_view(),
{
    shared::initialize_mint::process_initialize_mint(accounts, instruction_data, false, rent_sysvar)
}

} // verus!
