//! `Burn`: the amount comes as eight little-endian bytes.
use crate::account_info::{AccountInfo, AccountView};
use crate::error::{token_error, ProgramError, TokenError};
use crate::processor::shared;
use crate::processor::shared::burn::burn_result;
use crate::processor::{authority_well_formed, data_u64, outcome, read_u64};
use vstd::prelude::*;

verus! {

/// What `Burn` does with its instruction data: exactly eight bytes, the amount.
pub open spec fn burn_data_result(accs: Seq<AccountView>, data: Seq<u8>) -> Result<
    Seq<AccountView>,
    ProgramError,
> {
    if data.len() != 8 {
        Err(token_error(TokenError::InvalidInstruction))
    } else {
        burn_result(accs, data_u64(data), None)
    }
}

/// Processes a `Burn` instruction.
pub fn process_burn(accounts: &mut Vec<AccountInfo>, instruction_data: &[u8]) -> (r: Result<
    (),
    ProgramError,
>)
    requires
        authority_well_formed(old(accounts).deep_view(), 2),
    ensures
        outcome(r, final(accounts).deep_view()) == burn_data_result(
            old(accounts).deep_view(),
            instruction_data@,
        ),
        r is Err ==> final(accounts).deep_view() == old(accounts).deep_view(),
{
    if instruction_data.len() != 8 {
        return Err(TokenError::InvalidInstruction.into());
    }
    let amount = read_u64(instruction_data);
    shared::burn::process_burn(accounts, amount, None)
}

} // verus!
