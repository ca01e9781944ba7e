//! `FreezeAccount`.
use crate::account_info::{AccountInfo, AccountView};
use crate::error::ProgramError;
use crate::processor::shared::toggle_account_state::{
    process_toggle_account_state, toggle_account_state_result,
};
use crate::processor::{authority_well_formed, outcome};
use vstd::prelude::*;

verus! {

/// Processes a `FreezeAccount` instruction: the mint's freeze authority
/// freezes an initialized account.
pub fn process_freeze_account(accounts: &mut Vec<AccountInfo>) -> (r: Result<(), ProgramError>)
    requires
        authority_well_formed(old(accounts).deep_view(), 2),
    ensures
        outcome(r, final(accounts).deep_view()) == toggle_account_state_result(
            old(accounts).deep_view(),
            true,
        ),
        r is Err ==> final(accounts).deep_view() == old(accounts).deep_view(),
{
    process_toggle_account_state(accounts, true)
}

} // verus!
