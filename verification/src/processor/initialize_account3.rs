//! `InitializeAccount3`: the owner comes as instruction data and no rent
//! sysvar account is passed.
use crate::account_info::{AccountInfo, AccountView};
use crate::error::ProgramError;
use crate::processor::outcome;
use crate::processor::shared;
use crate::processor::shared::initialize_account::initialize_account_result;
use crate::pubkey::Pubkey;
use crate::rent::{first_data_len, rent_sysvar_view, rent_value_computable};
use crate::state::read_array;
use vstd::prelude::*;

verus! {

/// What `InitializeAccount3` does with its instruction data: exactly the
/// thirty-two bytes of the owner's key; the rent comes from the runtime.
pub open spec fn initialize_account3_data_result(
    accs: Seq<AccountView>,
    data: Seq<u8>,
    rent_sysvar: Result<Seq<u8>, ProgramError>,
) -> Result<Seq<AccountView>, ProgramError> {
    if data.len() != 32 {
        Err(ProgramError::InvalidInstructionData)
    } else {
        initialize_account_result(accs, Some(data), false, rent_sysvar)
    }
}

/// Processes an `InitializeAccount3` instruction.
pub fn process_initialize_account3(
    accounts: &mut Vec<AccountInfo>,
    instruction_data: &[u8],
    rent_sysvar: &Result<Vec<u8>, ProgramError>,
) -> (r: Result<(), ProgramError>)
    requires
        rent_value_computable(
            rent_sysvar_view(rent_sysvar),
            first_data_len(old(accounts).deep_view()),
        ),
    ensures
        outcome(r, final(accounts).deep_view()) == initialize_account3_data_result(
            old(accounts).deep_view(),
            instruction_data@,
            rent_sysvar_view(rent_sysvar),
        ),
        r is Err ==> final(accounts).deep_view() == old(accounts).deep_view(),
{
    if instruction_data.len() != 32 {
        return Err(ProgramError::InvalidInstructionData);
    }
    let owner: Pubkey = read_array(instruction_data, 0);
    assert(owner@ =~= instruction_data@);
    shared::initialize_account::process_initialize_account(accounts, Some(&owner), false, rent_sysvar)
}

} // verus!
