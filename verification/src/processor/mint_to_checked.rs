//! `MintToChecked`: the amount, then the mint's decimals.
use crate::account_info::{AccountInfo, AccountView};
use crate::error::{token_error, ProgramError, TokenError};
use crate::processor::shared;
use crate::processor::shared::mint_to::mint_to_result;
use crate::processor::{authority_well_formed, data_u64, outcome, read_u64};
use vstd::prelude::*;

verus! {

/// What `MintToChecked` does with its instruction data: at least nine bytes, the
/// amount in the first eight and the expected decimals in the ninth; shorter
/// data is an invalid instruction.
pub open spec fn mint_to_checked_data_result(accs: Seq<AccountView>, data: Seq<u8>) -> Result<
    Seq<AccountView>,
    ProgramError,
> {
    if data.len() < 9 {
        Err(token_error(TokenError::InvalidInstruction))
    } else {
        mint_to_result(accs, data_u64(data), Some(data[8]))
    }
}

/// Processes a `MintToChecked` instruction.
pub fn process_mint_to_checked(accounts: &mut Vec<AccountInfo>, instruction_data: &[u8]) -> (r:
    Result<(), ProgramError>)
    requires
        authority_well_formed(old(accounts).deep_view(), 2),
    ensures
        outcome(r, final(accounts).deep_view()) == mint_to_checked_data_result(
            old(accounts).deep_view(),
            instruction_data@,
        ),
        r is Err ==> final(accounts).deep_view() == old(accounts).deep_view(),
{
    if instruction_data.len() < 9 {
        return Err(TokenError::InvalidInstruction.into());
    }
    let amount = read_u64(instruction_data);
    shared::mint_to::process_mint_to(accounts, amount, Some(instruction_data[8]))
}

} // verus!
