//! Approving a delegate.
use crate::account_info::{with_data, write_data, AccountInfo, AccountView};
use crate::error::{token_error, ProgramError, TokenError};
use crate::processor::{
    authority_well_formed, outcome, remaining_accounts, validate_owner, validate_owner_result,
};
use crate::pubkey::pubkey_eq;
use crate::state::account::{
    account_is_frozen, account_mint, account_owner, account_with_delegate,
    account_with_delegated_amount, Account,
};
use crate::state::mint::{mint_decimals, Mint};
use crate::state::{load, load_mut, load_result, Transmutable};
use vstd::prelude::*;

verus! {

/// What approving a delegate for `amount` tokens does: the source account is
/// `accs[0]`; with `expected_decimals` the mint is `accs[1]`; then come the
/// delegate, the owner and multisig signers.
pub open spec fn approve_result(
    accs: Seq<AccountView>,
    amount: u64,
    expected_decimals: Option<u8>,
) -> Result<Seq<AccountView>, ProgramError> {
    let fixed: int = if expected_decimals is Some {
        4
    } else {
        3
    };
    if accs.len() < fixed {
        Err(ProgramError::NotEnoughAccountKeys)
    } else {
        let s = accs[0].data;
        let delegate = accs[fixed - 2];
        let owner = accs[fixed - 1];
        let signers = accs.subrange(fixed, accs.len() as int);
        if load_result::<Account>(s) is Err {
            Err(load_result::<Account>(s)->Err_0)
        } else if account_is_frozen(s) == Ok::<bool, ProgramError>(true) {
            Err(token_error(TokenError::AccountFrozen))
        } else if expected_decimals is Some && accs[1].key != account_mint(s) {
            Err(token_error(TokenError::MintMismatch))
        } else if expected_decimals is Some && load_result::<Mint>(accs[1].data) is Err {
            Err(load_result::<Mint>(accs[1].data)->Err_0)
        } else if expected_decimals is Some && expected_decimals->0 != mint_decimals(
            accs[1].data,
        ) {
            Err(token_error(TokenError::MintDecimalsMismatch))
        } else if validate_owner_result(account_owner(s), owner, signers) is Err {
            Err(validate_owner_result(account_owner(s), owner, signers)->Err_0)
        } else {
            Ok(
                with_data(
                    accs,
                    accs[0].key,
                    account_with_delegated_amount(account_with_delegate(s, delegate.key), amount),
                ),
            )
        }
    }
}

/// Approves the delegate account to spend `amount` tokens of the source
/// account; the owner must authorize it. `expected_decimals` asks for the mint
/// account and checks its decimals.
pub fn process_approve(
    accounts: &mut Vec<AccountInfo>,
    amount: u64,
    expected_decimals: Option<u8>,
) -> (r: Result<(), ProgramError>)
    requires
        authority_well_formed(old(accounts).deep_view(), if expected_decimals is Some { 3 } else { 2 }),
    ensures
        outcome(r, final(accounts).deep_view()) == approve_result(
            old(accounts).deep_view(),
            amount,
            expected_decimals,
        ),
        r is Err ==> final(accounts).deep_view() == old(accounts).deep_view(),
{
    let ghost accs = accounts.deep_view();
    let fixed: usize = if expected_decimals.is_some() {
        4
    } else {
        3
    };
    if accounts.len() < fixed {
        return Err(ProgramError::NotEnoughAccountKeys);
    }
    let mut source_account: Account = match load_mut(accounts[0].data()) {
        Ok(a) => a,
        Err(e) => {
            return Err(e);
        },
    };
    match source_account.is_frozen() {
        Ok(true) => {
            return Err(TokenError::AccountFrozen.into());
        },
        Ok(false) => {},
        Err(e) => {
            return Err(e);
        },
    }
    if let Some(decimals) = expected_decimals {
        if !pubkey_eq(accounts[1].key(), source_account.mint()) {
            return Err(TokenError::MintMismatch.into());
        }
        let mint: Mint = match load(accounts[1].data()) {
            Ok(m) => m,
            Err(e) => {
                return Err(e);
            },
        };
        if decimals != mint.decimals() {
            return Err(TokenError::MintDecimalsMismatch.into());
        }
    }
    let signers = remaining_accounts(accounts, fixed);
    let owner_key = *source_account.owner();
    validate_owner(&owner_key, &accounts[fixed - 1], signers)?;
    let delegate_key = accounts[fixed - 2].key;
    source_account.set_delegate(&delegate_key);
    source_account.set_delegated_amount(amount);
    let bytes = source_account.to_bytes();
    write_data(accounts, 0, &bytes);
    Ok(())
}

} // verus!
