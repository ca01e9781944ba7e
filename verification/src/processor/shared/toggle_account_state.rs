//! Freezing and thawing token accounts.
use crate::account_info::{with_data, write_data, AccountInfo, AccountView};
use crate::error::{token_error, ProgramError, TokenError};
use crate::processor::{
    authority_well_formed, outcome, remaining_accounts, validate_owner, validate_owner_result,
};
use crate::pubkey::pubkey_eq;
use crate::state::account::{
    account_is_frozen, account_is_native, account_mint, account_with_state, Account,
};
use crate::state::account_state::AccountState;
use crate::state::mint::{mint_freeze_authority, Mint};
use crate::state::{load, load_mut, load_result, Transmutable};
use vstd::prelude::*;

verus! {

/// What freezing (`freeze`) or thawing an account does: the account is
/// `accs[0]`, its mint `accs[1]`, the mint's freeze authority `accs[2]`, then
/// multisig signers.
pub open spec fn toggle_account_state_result(accs: Seq<AccountView>, freeze: bool) -> Result<
    Seq<AccountView>,
    ProgramError,
> {
    if accs.len() < 3 {
        Err(ProgramError::NotEnoughAccountKeys)
    } else {
        let s = accs[0].data;
        let m = accs[1].data;
        let signers = accs.subrange(3, accs.len() as int);
        if load_result::<Account>(s) is Err {
            Err(load_result::<Account>(s)->Err_0)
        } else if account_is_frozen(s) == Ok::<bool, ProgramError>(freeze) {
            Err(token_error(TokenError::InvalidState))
        } else if account_is_native(s) {
            Err(token_error(TokenError::NativeNotSupported))
        } else if accs[1].key != account_mint(s) {
            Err(token_error(TokenError::MintMismatch))
        } else if load_result::<Mint>(m) is Err {
            Err(load_result::<Mint>(m)->Err_0)
        } else if mint_freeze_authority(m) is None {
            Err(token_error(TokenError::MintCannotFreeze))
        } else if validate_owner_result(mint_freeze_authority(m)->0, accs[2], signers) is Err {
            Err(validate_owner_result(mint_freeze_authority(m)->0, accs[2], signers)->Err_0)
        } else {
            Ok(
                with_data(
                    accs,
                    accs[0].key,
                    account_with_state(
                        s,
                        if freeze {
                            AccountState::Frozen
                        } else {
                            AccountState::Initialized
                        },
                    ),
                ),
            )
        }
    }
}

/// Freezes (`freeze`) or thaws the account; the mint's freeze authority must
/// authorize it.
pub fn process_toggle_account_state(accounts: &mut Vec<AccountInfo>, freeze: bool) -> (r: Result<
    (),
    ProgramError,
>)
    requires
        authority_well_formed(old(accounts).deep_view(), 2),
    ensures
        outcome(r, final(accounts).deep_view()) == toggle_account_state_result(
            old(accounts).deep_view(),
            freeze,
        ),
        r is Err ==> final(accounts).deep_view() == old(accounts).deep_view(),
{
    if accounts.len() < 3 {
        return Err(ProgramError::NotEnoughAccountKeys);
    }
    let mut source_account: Account = match load_mut(accounts[0].data()) {
        Ok(a) => a,
        Err(e) => {
            return Err(e);
        },
    };
    let frozen = match source_account.is_frozen() {
        Ok(f) => f,
        Err(e) => {
            return Err(e);
        },
    };
    if freeze && frozen || !freeze && !frozen {
        return Err(TokenError::InvalidState.into());
    }
    if source_account.is_native() {
        return Err(TokenError::NativeNotSupported.into());
    }
    if !pubkey_eq(accounts[1].key(), source_account.mint()) {
        return Err(TokenError::MintMismatch.into());
    }
    let mint: Mint = match load(accounts[1].data()) {
        Ok(m) => m,
        Err(e) => {
            return Err(e);
        },
    };
    let authority = match mint.freeze_authority() {
        Some(a) => *a,
        None => {
            return Err(TokenError::MintCannotFreeze.into());
        },
    };
    let signers = remaining_accounts(accounts, 3);
    validate_owner(&authority, &accounts[2], signers)?;
    source_account.set_account_state(
        if freeze {
            AccountState::Frozen
        } else {
            AccountState::Initialized
        },
    );
    let bytes = source_account.to_bytes();
    write_data(accounts, 0, &bytes);
    Ok(())
}

} // verus!
