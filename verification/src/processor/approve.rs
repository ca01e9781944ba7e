//! `Approve`: the amount comes as eight little-endian bytes.
use crate::account_info::{AccountInfo, AccountView};
use crate::error::ProgramError;
use crate::processor::shared;
use crate::processor::shared::approve::approve_result;
use crate::processor::{authority_well_formed, data_u64, outcome, read_u64};
use vstd::prelude::*;

verus! {

/// What `Approve` does with its instruction data: exactly eight bytes, the
/// amount the delegate may transfer.
pub open spec fn approve_data_result(accs: Seq<AccountView>, data: Seq<u8>) -> Result<
    Seq<AccountView>,
    ProgramError,
> {
    if data.len() != 8 {
        Err(ProgramError::InvalidInstructionData)
    } else {
        approve_result(accs, data_u64(data), None)
    }
}

/// Processes an `Approve` instruction.
pub fn process_approve(accounts: &mut Vec<AccountInfo>, instruction_data: &[u8]) -> (r: Result<
    (),
    ProgramError,
>)
    requires
        authority_well_formed(old(accounts).deep_view(), 2),
    ensures
        outcome(r, final(accounts).deep_view()) == approve_data_result(
            old(accounts).deep_view(),
            instruction_data@,
        ),
        r is Err ==> final(accounts).deep_view() == old(accounts).deep_view(),
{
    if instruction_data.len() != 8 {
        return Err(ProgramError::InvalidInstructionData);
    }
    let amount = read_u64(instruction_data);
    shared::approve::process_approve(accounts, amount, None)
}

} // verus!
