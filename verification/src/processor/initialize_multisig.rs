//! `InitializeMultisig`: the number of required signers is the first byte.
use crate::account_info::{AccountInfo, AccountView};
use crate::error::ProgramError;
use crate::processor::outcome;
use crate::processor::shared;
use crate::processor::shared::initialize_multisig::initialize_multisig_result;
use crate::rent::{first_data_len, rent_account_computable, rent_sysvar_view};
use vstd::prelude::*;

verus! {

/// What `InitializeMultisig` does with its instruction data: its first byte is
/// the number of required signers; the rent sysvar is an account.
pub open spec fn initialize_multisig_data_result(
    accs: Seq<AccountView>,
    data: Seq<u8>,
    rent_sysvar: Result<Seq<u8>, ProgramError>,
) -> Result<Seq<AccountView>, ProgramError> {
    if data.len() == 0 {
        Err(ProgramError::InvalidInstructionData)
    } else {
        initialize_multisig_result(accs, data[0], true, rent_sysvar)
    }
}

/// Processes an `InitializeMultisig` instruction.
pub fn process_initialize_multisig(
    accounts: &mut Vec<AccountInfo>,
    instruction_data: &[u8],
    rent_sysvar: &Result<Vec<u8>, ProgramError>,
) -> (r: Result<(), ProgramError>)
    requires
        rent_account_computable(
            old(accounts).deep_view(),
            1,
            first_data_len(old(accounts).deep_view()),
        ),
    ensures
        outcome(r, final(accounts).deep_view()) == initialize_multisig_data_result(
            old(accounts).deep_view(),
            instruction_data@,
            rent_sysvar_view(rent_sysvar),
        ),
        r is Err ==> final(accounts).deep_view() == old(accounts).deep_view(),
{
    if instruction_data.len() == 0 {
        return Err(ProgramError::InvalidInstructionData);
    }
    shared::initialize_multisig::process_initialize_multisig(
        accounts,
        instruction_data[0],
        true,
        rent_sysvar,
    )
}

} // verus!
