//! Syncing a native token account's amount with its lamports.
use super::{check_account_owner, check_account_owner_result, outcome};
use crate::account_info::{with_data, write_data, AccountInfo, AccountView};
use crate::error::{token_error, ProgramError, TokenError};
use crate::state::account::{account_amount, account_native_amount, account_with_amount, Account};
use crate::state::{load_mut, load_result, Transmutable};
use vstd::prelude::*;

verus! {

/// What syncing does to the native account `accs[0]`: its amount becomes its
/// lamports above the rent-exempt reserve, which may not lower it.
pub open spec fn sync_native_result(accs: Seq<AccountView>) -> Result<
    Seq<AccountView>,
    ProgramError,
> {
    if accs.len() < 1 {
        Err(ProgramError::NotEnoughAccountKeys)
    } else {
        let a = accs[0];
        let s = a.data;
        if check_account_owner_result(a) is Err {
            Err(ProgramError::IncorrectProgramId)
        } else if load_result::<Account>(s) is Err {
            Err(load_result::<Account>(s)->Err_0)
        } else {
            match account_native_amount(s) {
                None => Err(token_error(TokenError::NonNativeNotSupported)),
                Some(reserve) => if a.lamports < reserve {
                    Err(token_error(TokenError::Overflow))
                } else if a.lamports - reserve < account_amount(s) {
                    Err(token_error(TokenError::InvalidState))
                } else {
                    Ok(with_data(accs, a.key, account_with_amount(s, (a.lamports - reserve) as u64)))
                },
            }
        }
    }
}

/// Sets a native token account's amount to its lamports above the rent-exempt
/// reserve.
pub fn process_sync_native(accounts: &mut Vec<AccountInfo>) -> (r: Result<(), ProgramError>)
    ensures
        outcome(r, final(accounts).deep_view()) == sync_native_result(old(accounts).deep_view()),
        r is Err ==> final(accounts).deep_view() == old(accounts).deep_view(),
{
    if accounts.len() < 1 {
        return Err(ProgramError::NotEnoughAccountKeys);
    }
    check_account_owner(&accounts[0])?;
    let mut native_account: Account = match load_mut(accounts[0].data()) {
        Ok(a) => a,
        Err(e) => {
            return Err(e);
        },
    };
    match native_account.native_amount() {
        Some(rent_exempt_reserve) => {
            let lamports = accounts[0].lamports();
            if lamports < rent_exempt_reserve {
                return Err(TokenError::Overflow.into());
            }
            let new_amount = lamports - rent_exempt_reserve;
            if new_amount < native_account.amount() {
                return Err(TokenError::InvalidState.into());
            }
            native_account.set_amount(new_amount);
        },
        None => {
            return Err(TokenError::NonNativeNotSupported.into());
        },
    }
    let bytes = native_account.to_bytes();
    write_data(accounts, 0, &bytes);
    Ok(())
}

} // verus!
