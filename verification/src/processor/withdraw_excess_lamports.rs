//! Rescuing lamports sent to a token-program account.
use super::{
    authority_well_formed, outcome, remaining_accounts, validate_owner, validate_owner_result,
};
use crate::account_info::{with_lamports, write_lamports, AccountInfo, AccountView};
use crate::error::{token_error, ProgramError, TokenError};
use crate::pubkey::pubkey_eq;
use crate::rent::{
    first_data_len, minimum_balance_from_sysvar, rent_sysvar_view, rent_value_computable,
    rent_value_minimum_balance,
};
use crate::state::account::{account_is_native, account_owner, Account, ACCOUNT_LEN};
use crate::state::mint::{mint_mint_authority, Mint, MINT_LEN};
use crate::state::multisig::MULTISIG_LEN;
use crate::state::{load, load_result, Transmutable};
use vstd::prelude::*;

verus! {

/// The authority check of a withdrawal, by the kind of the source account: a
/// token account's owner, a mint's mint authority, or a multisig itself.
pub open spec fn withdraw_authority_result(accs: Seq<AccountView>) -> Result<(), ProgramError> {
    let src = accs[0];
    let s = src.data;
    let signers = accs.subrange(3, accs.len() as int);
    if s.len() == 165 {
        if load_result::<Account>(s) is Err {
            Err(load_result::<Account>(s)->Err_0)
        } else if account_is_native(s) {
            Err(token_error(TokenError::NativeNotSupported))
        } else {
            validate_owner_result(account_owner(s), accs[2], signers)
        }
    } else if s.len() == 82 {
        if load_result::<Mint>(s) is Err {
            Err(load_result::<Mint>(s)->Err_0)
        } else if mint_mint_authority(s) is None {
            Err(token_error(TokenError::AuthorityTypeNotSupported))
        } else {
            validate_owner_result(mint_mint_authority(s)->0, accs[2], signers)
        }
    } else if s.len() == 355 {
        validate_owner_result(src.key, accs[2], signers)
    } else {
        Err(token_error(TokenError::InvalidState))
    }
}

/// What withdrawing excess lamports does: the source (a token account, mint or
/// multisig) is `accs[0]`, the destination `accs[1]`, the authority `accs[2]`,
/// then multisig signers. The source keeps exactly its rent-exempt reserve and
/// the rest moves to the destination.
pub open spec fn withdraw_excess_lamports_result(
    accs: Seq<AccountView>,
    rent_sysvar: Result<Seq<u8>, ProgramError>,
) -> Result<Seq<AccountView>, ProgramError> {
    if accs.len() < 3 {
        Err(ProgramError::NotEnoughAccountKeys)
    } else if withdraw_authority_result(accs) is Err {
        Err(withdraw_authority_result(accs)->Err_0)
    } else {
        let src = accs[0];
        let dst = accs[1];
        match rent_value_minimum_balance(rent_sysvar, src.data.len() as usize) {
            Err(e) => Err(e),
            Ok(reserve) => if src.lamports < reserve {
                Err(token_error(TokenError::NotRentExempt))
            } else {
                let excess = (src.lamports - reserve) as u64;
                let dst_now = if dst.key == src.key {
                    reserve
                } else {
                    dst.lamports
                };
                if dst_now + excess > u64::MAX {
                    Err(token_error(TokenError::Overflow))
                } else {
                    Ok(
                        with_lamports(
                            with_lamports(accs, src.key, reserve),
                            dst.key,
                            (dst_now + excess) as u64,
                        ),
                    )
                }
            },
        }
    }
}

/// Moves the lamports above the rent-exempt reserve out of a token-program
/// account (token account, mint or multisig) to the destination; the account's
/// authority must authorize it.
pub fn process_withdraw_excess_lamports(
    accounts: &mut Vec<AccountInfo>,
    rent_sysvar: &Result<Vec<u8>, ProgramError>,
) -> (r: Result<(), ProgramError>)
    requires
        authority_well_formed(old(accounts).deep_view(), 2),
        rent_value_computable(
            rent_sysvar_view(rent_sysvar),
            first_data_len(old(accounts).deep_view()),
        ),
    ensures
        outcome(r, final(accounts).deep_view()) == withdraw_excess_lamports_result(
            old(accounts).deep_view(),
            rent_sysvar_view(rent_sysvar),
        ),
        r is Err ==> final(accounts).deep_view() == old(accounts).deep_view(),
{
    let ghost accs = accounts.deep_view();
    if accounts.len() < 3 {
        return Err(ProgramError::NotEnoughAccountKeys);
    }
    let data_len = accounts[0].data_len();
    let signers = remaining_accounts(accounts, 3);
    if data_len == ACCOUNT_LEN {
        let account: Account = match load(accounts[0].data()) {
            Ok(a) => a,
            Err(e) => {
                return Err(e);
            },
        };
        if account.is_native() {
            return Err(TokenError::NativeNotSupported.into());
        }
        let owner_key = *account.owner();
        validate_owner(&owner_key, &accounts[2], signers)?;
    } else if data_len == MINT_LEN {
        let mint: Mint = match load(accounts[0].data()) {
            Ok(m) => m,
            Err(e) => {
                return Err(e);
            },
        };
        match mint.mint_authority() {
            Some(a) => {
                let authority = *a;
                validate_owner(&authority, &accounts[2], signers)?;
            },
            None => {
                return Err(TokenError::AuthorityTypeNotSupported.into());
            },
        }
    } else if data_len == MULTISIG_LEN {
        let source_key = accounts[0].key;
        validate_owner(&source_key, &accounts[2], signers)?;
    } else {
        return Err(TokenError::InvalidState.into());
    }
    assert(rent_sysvar matches Ok(v) ==> crate::rent::rent_computable(v@, accs[0].data.len() as usize));
    let reserve = minimum_balance_from_sysvar(rent_sysvar, data_len)?;
    let source_lamports = accounts[0].lamports();
    if source_lamports < reserve {
        return Err(TokenError::NotRentExempt.into());
    }
    let excess = source_lamports - reserve;
    let destination_now = if pubkey_eq(accounts[1].key(), accounts[0].key()) {
        reserve
    } else {
        accounts[1].lamports()
    };
    if destination_now > u64::MAX - excess {
        return Err(TokenError::Overflow.into());
    }
    write_lamports(accounts, 0, reserve);
    assert(accounts.deep_view()[1].key == accs[1].key);
    write_lamports(accounts, 1, destination_now + excess);
    Ok(())
}

} // verus!
