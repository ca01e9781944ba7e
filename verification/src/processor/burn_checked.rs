//! `BurnChecked`: the amount, then the mint's decimals.
use crate::account_info::{AccountInfo, AccountView};
use crate::error::ProgramError;
use crate::processor::shared;
use crate::processor::shared::burn::burn_result;
use crate::processor::{authority_well_formed, data_u64, outcome, read_u64};
use vstd::prelude::*;

verus! {

/// What `BurnChecked` does with its instruction data: exactly nine bytes, the
/// amount and the expected decimals.
pub open spec fn burn_checked_data_result(accs: Seq<AccountView>, data: Seq<u8>) -> Result<
    Seq<AccountView>,
    ProgramError,
> {
    if data.len() != 9 {
        Err(ProgramError::InvalidInstructionData)
    } else {
        burn_result(accs, data_u64(data), Some(data[8]))
    }
}

/// Processes a `BurnChecked` instruction.
pub fn process_burn_checked(accounts: &mut Vec<AccountInfo>, instruction_data: &[u8]) -> (r:
    Result<(), ProgramError>)
    requires
        authority_well_formed(old(accounts).deep_view(), 2),
    ensures
        outcome(r, final(accounts).deep_view()) == burn_checked_data_result(
            old(accounts).deep_view(),
            instruction_data@,
        ),
        r is Err ==> final(accounts).deep_view() == old(accounts).deep_view(),
{
    if instruction_data.len() != 9 {
        return Err(ProgramError::InvalidInstructionData);
    }
    let amount = read_u64(instruction_data);
    shared::burn::process_burn(accounts, amount, Some(instruction_data[8]))
}

} // verus!
