//! Minting new tokens to an account.
use crate::account_info::{with_data, write_data, AccountInfo, AccountView};
use crate::error::{token_error, ProgramError, TokenError};
use crate::processor::{
    authority_well_formed, check_account_owner, check_account_owner_result, outcome,
    remaining_accounts, validate_owner, validate_owner_result,
};
use crate::pubkey::pubkey_eq;
use crate::state::account::{
    account_amount, account_is_frozen, account_is_native, account_mint, account_with_amount,
    Account,
};
use crate::state::mint::{mint_decimals, mint_mint_authority, mint_supply, mint_with_supply, Mint};
use crate::state::{load_mut, load_result, Transmutable};
use vstd::prelude::*;

verus! {

/// What minting `amount` tokens does: the mint is `accs[0]`, the destination
/// account `accs[1]`, the mint authority `accs[2]`, then multisig signers.
pub open spec fn mint_to_result(
    accs: Seq<AccountView>,
    amount: u64,
    expected_decimals: Option<u8>,
) -> Result<Seq<AccountView>, ProgramError> {
    if accs.len() < 3 {
        Err(ProgramError::NotEnoughAccountKeys)
    } else {
        let m = accs[0].data;
        let d = accs[1].data;
        let signers = accs.subrange(3, accs.len() as int);
        if load_result::<Account>(d) is Err {
            Err(load_result::<Account>(d)->Err_0)
        } else if account_is_frozen(d) == Ok::<bool, ProgramError>(true) {
            Err(token_error(TokenError::AccountFrozen))
        } else if account_is_native(d) {
            Err(token_error(TokenError::NativeNotSupported))
        } else if accs[0].key != account_mint(d) {
            Err(token_error(TokenError::MintMismatch))
        } else if load_result::<Mint>(m) is Err {
            Err(load_result::<Mint>(m)->Err_0)
        } else if expected_decimals is Some && expected_decimals->0 != mint_decimals(m) {
            Err(token_error(TokenError::MintDecimalsMismatch))
        } else if mint_mint_authority(m) is None {
            Err(token_error(TokenError::FixedSupply))
        } else if validate_owner_result(mint_mint_authority(m)->0, accs[2], signers) is Err {
            Err(validate_owner_result(mint_mint_authority(m)->0, accs[2], signers)->Err_0)
        } else if amount == 0 {
            if check_account_owner_result(accs[0]) is Err {
                Err(ProgramError::IncorrectProgramId)
            } else if check_account_owner_result(accs[1]) is Err {
                Err(ProgramError::IncorrectProgramId)
            } else {
                Ok(accs)
            }
        } else if mint_supply(m) + amount > u64::MAX {
            Err(token_error(TokenError::Overflow))
        } else if account_amount(d) + amount > u64::MAX {
            Err(token_error(TokenError::Overflow))
        } else {
            Ok(
                with_data(
                    with_data(accs, accs[0].key, mint_with_supply(m, (mint_supply(m) + amount) as u64)),
                    accs[1].key,
                    account_with_amount(d, (account_amount(d) + amount) as u64),
                ),
            )
        }
    }
}

/// Mints `amount` new tokens to the destination account, raising the mint's
/// supply; the mint's authority must authorize it. `expected_decimals` checks
/// the mint's decimals.
pub fn process_mint_to(
    accounts: &mut Vec<AccountInfo>,
    amount: u64,
    expected_decimals: Option<u8>,
) -> (r: Result<(), ProgramError>)
    requires
        authority_well_formed(old(accounts).deep_view(), 2),
    ensures
        outcome(r, final(accounts).deep_view()) == mint_to_result(
            old(accounts).deep_view(),
            amount,
            expected_decimals,
        ),
        r is Err ==> final(accounts).deep_view() == old(accounts).deep_view(),
{
    let ghost accs = accounts.deep_view();
    if accounts.len() < 3 {
        return Err(ProgramError::NotEnoughAccountKeys);
    }
    let mut destination_account: Account = match load_mut(accounts[1].data()) {
        Ok(a) => a,
        Err(e) => {
            return Err(e);
        },
    };
    match destination_account.is_frozen() {
        Ok(true) => {
            return Err(TokenError::AccountFrozen.into());
        },
        Ok(false) => {},
        Err(e) => {
            return Err(e);
        },
    }
    if destination_account.is_native() {
        return Err(TokenError::NativeNotSupported.into());
    }
    if !pubkey_eq(accounts[0].key(), destination_account.mint()) {
        return Err(TokenError::MintMismatch.into());
    }
    let mut mint: Mint = match load_mut(accounts[0].data()) {
        Ok(m) => m,
        Err(e) => {
            return Err(e);
        },
    };
    if let Some(decimals) = expected_decimals {
        if decimals != mint.decimals() {
            return Err(TokenError::MintDecimalsMismatch.into());
        }
    }
    let authority = match mint.mint_authority() {
        Some(a) => *a,
        None => {
            return Err(TokenError::FixedSupply.into());
        },
    };
    let signers = remaining_accounts(accounts, 3);
    validate_owner(&authority, &accounts[2], signers)?;
    if amount == 0 {
        check_account_owner(&accounts[0])?;
        check_account_owner(&accounts[1])?;
        return Ok(());
    }
    let supply = mint.supply();
    if supply > u64::MAX - amount {
        return Err(TokenError::Overflow.into());
    }
    let destination_amount = destination_account.amount();
    if destination_amount > u64::MAX - amount {
        return Err(TokenError::Overflow.into());
    }
    mint.set_supply(supply + amount);
    destination_account.set_amount(destination_amount + amount);
    let mint_bytes = mint.to_bytes();
    let destination_bytes = destination_account.to_bytes();
    write_data(accounts, 0, &mint_bytes);
    assert(accounts.deep_view()[1].key == accs[1].key);
    write_data(accounts, 1, &destination_bytes);
    assert(mint_to_result(accs, amount, expected_decimals) == Ok::<Seq<AccountView>, ProgramError>(
        accounts.deep_view(),
    ));
    Ok(())
}

} // verus!
