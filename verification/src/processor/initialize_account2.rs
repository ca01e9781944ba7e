//! `InitializeAccount2`: the owner comes as instruction data.
use crate::account_info::{AccountInfo, AccountView};
use crate::error::{token_error, ProgramError, TokenError};
use crate::processor::outcome;
use crate::processor::shared;
use crate::processor::shared::initialize_account::initialize_account_result;
use crate::pubkey::Pubkey;
use crate::rent::{first_data_len, rent_account_computable, rent_sysvar_view};
use crate::state::read_array;
use vstd::prelude::*;

verus! {

/// What `InitializeAccount2` does with its instruction data: exactly the
/// thirty-two bytes of the owner's key; the rent sysvar is an account.
pub open spec fn initialize_account2_data_result(
    accs: Seq<AccountView>,
    data: Seq<u8>,
    rent_sysvar: Result<Seq<u8>, ProgramError>,
) -> Result<Seq<AccountView>, ProgramError> {
    if data.len() != 32 {
        Err(token_error(TokenError::InvalidInstruction))
    } else {
        initialize_account_result(accs, Some(data), true, rent_sysvar)
    }
}

/// Processes an `InitializeAccount2` instruction.
pub fn process_initialize_account2(
    accounts: &mut Vec<AccountInfo>,
    instruction_data: &[u8],
    rent_sysvar: &Result<Vec<u8>, ProgramError>,
) -> (r: Result<(), ProgramError>)
    requires
        rent_account_computable(
            old(accounts).deep_view(),
            2,
            first_data_len(old(accounts).deep_view()),
        ),
    ensures
        outcome(r, final(accounts).deep_view()) == initialize_account2_data_result(
            old(accounts).deep_view(),
            instruction_data@,
            rent_sysvar_view(rent_sysvar),
        ),
        r is Err ==> final(accounts).deep_view() == old(accounts).deep_view(),
{
    if instruction_data.len() != 32 {
        return Err(TokenError::InvalidInstruction.into());
    }
    let owner: Pubkey = read_array(instruction_data, 0);
    assert(owner@ =~= instruction_data@);
    shared::initialize_account::process_initialize_account(accounts, Some(&owner), true, rent_sysvar)
}

} // verus!
