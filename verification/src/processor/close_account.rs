//! Closing a token account.
use super::{
    authority_well_formed, outcome, remaining_accounts, validate_owner, validate_owner_result,
};
use crate::account_info::{
    close_account_at, with_closed, with_lamports, write_lamports, AccountInfo, AccountView,
};
use crate::error::{token_error, ProgramError, TokenError};
use crate::pubkey::pubkey_eq;
use crate::state::account::{
    account_amount, account_close_authority, account_is_native,
    account_owned_by_system_or_incinerator, account_owner, Account, INCINERATOR_ID,
};
use crate::state::{load, load_result, Transmutable};
use vstd::prelude::*;

verus! {

/// What closing an account does: the account is `accs[0]`, the destination
/// `accs[1]`, the close authority (or owner) `accs[2]`, then multisig signers.
/// All the account's lamports move to the destination and the account is
/// closed. Accounts owned by the system program or the incinerator need no
/// authority but may only be closed into the incinerator.
pub open spec fn close_account_result(accs: Seq<AccountView>) -> Result<
    Seq<AccountView>,
    ProgramError,
> {
    if accs.len() < 3 {
        Err(ProgramError::NotEnoughAccountKeys)
    } else {
        let src = accs[0];
        let dst = accs[1];
        let s = src.data;
        let signers = accs.subrange(3, accs.len() as int);
        let authority = match account_close_authority(s) {
            Some(k) => k,
            None => account_owner(s),
        };
        if src.key == dst.key {
            Err(ProgramError::InvalidAccountData)
        } else if load_result::<Account>(s) is Err {
            Err(load_result::<Account>(s)->Err_0)
        } else if !account_is_native(s) && account_amount(s) != 0 {
            Err(token_error(TokenError::NonNativeHasBalance))
        } else if !account_owned_by_system_or_incinerator(s) && validate_owner_result(
            authority,
            accs[2],
            signers,
        ) is Err {
            Err(validate_owner_result(authority, accs[2], signers)->Err_0)
        } else if account_owned_by_system_or_incinerator(s) && dst.key != INCINERATOR_ID@ {
            Err(ProgramError::InvalidAccountData)
        } else if dst.lamports + src.lamports > u64::MAX {
            Err(token_error(TokenError::Overflow))
        } else {
            Ok(
                with_closed(
                    with_lamports(accs, dst.key, (dst.lamports + src.lamports) as u64),
                    src.key,
                ),
            )
        }
    }
}

/// Closes the source account, moving all its lamports to the destination; a
/// non-native account must hold no tokens.
pub fn process_close_account(accounts: &mut Vec<AccountInfo>) -> (r: Result<(), ProgramError>)
    requires
        authority_well_formed(old(accounts).deep_view(), 2),
    ensures
        outcome(r, final(accounts).deep_view()) == close_account_result(old(accounts).deep_view()),
        r is Err ==> final(accounts).deep_view() == old(accounts).deep_view(),
{
    let ghost accs = accounts.deep_view();
    if accounts.len() < 3 {
        return Err(ProgramError::NotEnoughAccountKeys);
    }
    if pubkey_eq(accounts[0].key(), accounts[1].key()) {
        return Err(ProgramError::InvalidAccountData);
    }
    let source_account: Account = match load(accounts[0].data()) {
        Ok(a) => a,
        Err(e) => {
            return Err(e);
        },
    };
    if !source_account.is_native() && source_account.amount() != 0 {
        return Err(TokenError::NonNativeHasBalance.into());
    }
    let authority = match source_account.close_authority() {
        Some(k) => *k,
        None => *source_account.owner(),
    };
    if !source_account.is_owned_by_system_program_or_incinerator() {
        let signers = remaining_accounts(accounts, 3);
        validate_owner(&authority, &accounts[2], signers)?;
    } else if !pubkey_eq(accounts[1].key(), &INCINERATOR_ID) {
        return Err(ProgramError::InvalidAccountData);
    }
    let destination_starting_lamports = accounts[1].lamports();
    let source_lamports = accounts[0].lamports();
    if destination_starting_lamports > u64::MAX - source_lamports {
        return Err(TokenError::Overflow.into());
    }
    write_lamports(accounts, 1, destination_starting_lamports + source_lamports);
    assert(accounts.deep_view()[0].key == accs[0].key);
    close_account_at(accounts, 0);
    Ok(())
}

} // verus!
