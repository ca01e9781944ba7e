//! `TransferChecked`: the amount, then the mint's decimals.
use crate::account_info::{AccountInfo, AccountView};
use crate::error::{token_error, ProgramError, TokenError};
use crate::processor::transfer::{process_transfer, transfer_result};
use crate::processor::{authority_well_formed, data_u64, outcome, read_u64};
use vstd::prelude::*;

verus! {

/// What `TransferChecked` does with its instruction data: at least nine bytes,
/// the amount in the first eight and the expected decimals in the ninth.
pub open spec fn transfer_checked_data_result(accs: Seq<AccountView>, data: Seq<u8>) -> Result<
    Seq<AccountView>,
    ProgramError,
> {
    if data.len() < 9 {
        Err(token_error(TokenError::InvalidInstruction))
    } else {
        transfer_result(accs, data_u64(data), Some(data[8]))
    }
}

/// Processes a `TransferChecked` instruction.
pub fn process_transfer_checked(accounts: &mut Vec<AccountInfo>, instruction_data: &[u8]) -> (r:
    Result<(), ProgramError>)
    requires
        authority_well_formed(old(accounts).deep_view(), 3),
    ensures
        outcome(r, final(accounts).deep_view()) == transfer_checked_data_result(
            old(accounts).deep_view(),
            instruction_data@,
        ),
        r is Err ==> final(accounts).deep_view() == old(accounts).deep_view(),
{
    if instruction_data.len() < 9 {
        return Err(TokenError::InvalidInstruction.into());
    }
    let amount = read_u64(instruction_data);
    process_transfer(accounts, amount, Some(instruction_data[8]))
}

} // verus!
