//! Burning tokens from an account.
use crate::account_info::{with_data, write_data, AccountInfo, AccountView};
use crate::error::{token_error, ProgramError, TokenError};
use crate::processor::{
    authority_well_formed, check_account_owner, check_account_owner_result, outcome,
    remaining_accounts, validate_owner, validate_owner_result,
};
use crate::pubkey::pubkey_eq;
use crate::state::account::{
    account_amount, account_delegate, account_delegated_amount, account_is_frozen,
    account_is_native, account_mint, account_owned_by_system_or_incinerator, account_owner,
    account_with_amount, account_with_delegated_amount, account_without_delegate, Account,
};
use crate::state::mint::{mint_decimals, mint_supply, mint_with_supply, Mint};
use crate::state::{load_mut, load_result, Transmutable};
use vstd::prelude::*;

verus! {

/// The source account's data after the authority check of a burn: a delegate
/// has its allowance reduced, and cleared at zero.
pub open spec fn burn_source_after_authority(src: Seq<u8>, by_delegate: bool, amount: u64) -> Seq<
    u8,
> {
    if by_delegate {
        let left = (account_delegated_amount(src) - amount) as u64;
        if left == 0 {
            account_without_delegate(account_with_delegated_amount(src, left))
        } else {
            account_with_delegated_amount(src, left)
        }
    } else {
        src
    }
}

/// What burning `amount` tokens does: the source account is `accs[0]`, the mint
/// `accs[1]`, the authority `accs[2]`, then multisig signers. Accounts owned by
/// the system program or the incinerator need no authority.
pub open spec fn burn_result(
    accs: Seq<AccountView>,
    amount: u64,
    expected_decimals: Option<u8>,
) -> Result<Seq<AccountView>, ProgramError> {
    if accs.len() < 3 {
        Err(ProgramError::NotEnoughAccountKeys)
    } else {
        let s = accs[0].data;
        let m = accs[1].data;
        let auth = accs[2];
        let signers = accs.subrange(3, accs.len() as int);
        let checked = !account_owned_by_system_or_incinerator(s);
        let by_delegate = checked && account_delegate(s) == Some(auth.key);
        let expected_owner = if by_delegate {
            auth.key
        } else {
            account_owner(s)
        };
        if load_result::<Account>(s) is Err {
            Err(load_result::<Account>(s)->Err_0)
        } else if load_result::<Mint>(m) is Err {
            Err(load_result::<Mint>(m)->Err_0)
        } else if account_is_frozen(s) == Ok::<bool, ProgramError>(true) {
            Err(token_error(TokenError::AccountFrozen))
        } else if account_is_native(s) {
            Err(token_error(TokenError::NativeNotSupported))
        } else if account_amount(s) < amount {
            Err(token_error(TokenError::InsufficientFunds))
        } else if accs[1].key != account_mint(s) {
            Err(token_error(TokenError::MintMismatch))
        } else if expected_decimals is Some && expected_decimals->0 != mint_decimals(m) {
            Err(token_error(TokenError::MintDecimalsMismatch))
        } else if checked && validate_owner_result(expected_owner, auth, signers) is Err {
            Err(validate_owner_result(expected_owner, auth, signers)->Err_0)
        } else if by_delegate && account_delegated_amount(s) < amount {
            Err(token_error(TokenError::InsufficientFunds))
        } else {
            let s1 = burn_source_after_authority(s, by_delegate, amount);
            if amount == 0 {
                if check_account_owner_result(accs[0]) is Err {
                    Err(ProgramError::IncorrectProgramId)
                } else if check_account_owner_result(accs[1]) is Err {
                    Err(ProgramError::IncorrectProgramId)
                } else {
                    Ok(with_data(accs, accs[0].key, s1))
                }
            } else if mint_supply(m) < amount {
                Err(token_error(TokenError::Overflow))
            } else {
                Ok(
                    with_data(
                        with_data(
                            accs,
                            accs[0].key,
                            account_with_amount(s1, (account_amount(s) - amount) as u64),
                        ),
                        accs[1].key,
                        mint_with_supply(m, (mint_supply(m) - amount) as u64),
                    ),
                )
            }
        }
    }
}

/// Burns `amount` tokens from the source account, lowering the mint's supply;
/// the owner or the delegate must authorize it. `expected_decimals` checks the
/// mint's decimals.
pub fn process_burn(
    accounts: &mut Vec<AccountInfo>,
    amount: u64,
    expected_decimals: Option<u8>,
) -> (r: Result<(), ProgramError>)
    requires
        authority_well_formed(old(accounts).deep_view(), 2),
    ensures
        outcome(r, final(accounts).deep_view()) == burn_result(
            old(accounts).deep_view(),
            amount,
            expected_decimals,
        ),
        r is Err ==> final(accounts).deep_view() == old(accounts).deep_view(),
{
    let ghost accs = accounts.deep_view();
    if accounts.len() < 3 {
        return Err(ProgramError::NotEnoughAccountKeys);
    }
    let mut source_account: Account = match load_mut(accounts[0].data()) {
        Ok(a) => a,
        Err(e) => {
            return Err(e);
        },
    };
    let mut mint: Mint = match load_mut(accounts[1].data()) {
        Ok(m) => m,
        Err(e) => {
            return Err(e);
        },
    };
    match source_account.is_frozen() {
        Ok(true) => {
            return Err(TokenError::AccountFrozen.into());
        },
        Ok(false) => {},
        Err(e) => {
            return Err(e);
        },
    }
    if source_account.is_native() {
        return Err(TokenError::NativeNotSupported.into());
    }
    let source_amount = source_account.amount();
    if source_amount < amount {
        return Err(TokenError::InsufficientFunds.into());
    }
    let updated_source_amount = source_amount - amount;
    if !pubkey_eq(accounts[1].key(), source_account.mint()) {
        return Err(TokenError::MintMismatch.into());
    }
    if let Some(decimals) = expected_decimals {
        if decimals != mint.decimals() {
            return Err(TokenError::MintDecimalsMismatch.into());
        }
    }
    if !source_account.is_owned_by_system_program_or_incinerator() {
        let signers = remaining_accounts(accounts, 3);
        let by_delegate = match source_account.delegate() {
            Some(d) => pubkey_eq(d, accounts[2].key()),
            None => false,
        };
        if by_delegate {
            let authority_key = accounts[2].key;
            validate_owner(&authority_key, &accounts[2], signers)?;
            let delegated = source_account.delegated_amount();
            if delegated < amount {
                return Err(TokenError::InsufficientFunds.into());
            }
            let left = delegated - amount;
            source_account.set_delegated_amount(left);
            if left == 0 {
                source_account.clear_delegate();
            }
        } else {
            let owner_key = *source_account.owner();
            validate_owner(&owner_key, &accounts[2], signers)?;
        }
    }
    if amount == 0 {
        check_account_owner(&accounts[0])?;
        check_account_owner(&accounts[1])?;
        let bytes = source_account.to_bytes();
        write_data(accounts, 0, &bytes);
        return Ok(());
    }
    let supply = mint.supply();
    if supply < amount {
        return Err(TokenError::Overflow.into());
    }
    source_account.set_amount(updated_source_amount);
    mint.set_supply(supply - amount);
    let source_bytes = source_account.to_bytes();
    let mint_bytes = mint.to_bytes();
    write_data(accounts, 0, &source_bytes);
    assert(accounts.deep_view()[1].key == accs[1].key);
    write_data(accounts, 1, &mint_bytes);
    assert(burn_result(accs, amount, expected_decimals) == Ok::<Seq<AccountView>, ProgramError>(
        accounts.deep_view(),
    ));
    Ok(())
}

} // verus!
