//! `InitializeMultisig2`: the rent comes from the runtime.
use crate::account_info::{AccountInfo, AccountView};
use crate::error::ProgramError;
use crate::processor::outcome;
use crate::processor::shared;
use crate::processor::shared::initialize_multisig::initialize_multisig_result;
use crate::rent::{first_data_len, rent_sysvar_view, rent_value_computable};
use vstd::prelude::*;

verus! {

/// Processes an `InitializeMultisig2` instruction with `m` required signers.
pub fn process_initialize_multisig2(
    accounts: &mut Vec<AccountInfo>,
    m: u8,
    rent_sysvar: &Result<Vec<u8>, ProgramError>,
) -> (r: Result<(), ProgramError>)
    requires
        rent_value_computable(
            rent_sysvar_view(rent_sysvar),
            first_data_len(old(accounts).deep_view()),
        ),
    ensures
        outcome(r, final(accounts).deep_view()) == initialize_multisig_result(
            old(accounts).deep_view(),
            m,
            false,
            rent_sysvar_view(rent_sysvar),
        ),
        r is Err ==> final(accounts).deep_view() == old(accounts).deep_view(),
{
    shared::initialize_multisig::process_initialize_multisig(accounts, m, false, rent_sysvar)
}

} // verus!
