//! Revoking a delegate.
use super::{
    authority_well_formed, outcome, remaining_accounts, validate_owner, validate_owner_result,
};
use crate::account_info::{with_data, write_data, AccountInfo, AccountView};
use crate::error::{token_error, ProgramError, TokenError};
use crate::state::account::{
    account_is_frozen, account_owner, account_with_delegated_amount, account_without_delegate,
    Account,
};
use crate::state::{load_mut, load_result, Transmutable};
use vstd::prelude::*;

verus! {

/// What revoking does: the source account is `accs[0]`, the owner `accs[1]`,
/// then multisig signers; the delegate is cleared and its allowance zeroed.
pub open spec fn revoke_result(accs: Seq<AccountView>) -> Result<Seq<AccountView>, ProgramError> {
    if accs.len() < 2 {
        Err(ProgramError::NotEnoughAccountKeys)
    } else {
        let s = accs[0].data;
        let signers = accs.subrange(2, accs.len() as int);
        if load_result::<Account>(s) is Err {
            Err(load_result::<Account>(s)->Err_0)
        } else if account_is_frozen(s) == Ok::<bool, ProgramError>(true) {
            Err(token_error(TokenError::AccountFrozen))
        } else if validate_owner_result(account_owner(s), accs[1], signers) is Err {
            Err(validate_owner_result(account_owner(s), accs[1], signers)->Err_0)
        } else {
            Ok(
                with_data(
                    accs,
                    accs[0].key,
                    account_with_delegated_amount(account_without_delegate(s), 0),
                ),
            )
        }
    }
}

/// Revokes the delegate's authority over the source account; the owner must
/// authorize it. The instruction data is not read.
pub fn process_revoke(accounts: &mut Vec<AccountInfo>, _instruction_data: &[u8]) -> (r: Result<
    (),
    ProgramError,
>)
    requires
        authority_well_formed(old(accounts).deep_view(), 1),
    ensures
        outcome(r, final(accounts).deep_view()) == revoke_result(old(accounts).deep_view()),
        r is Err ==> final(accounts).deep_view() == old(accounts).deep_view(),
{
    if accounts.len() < 2 {
        return Err(ProgramError::NotEnoughAccountKeys);
    }
    let mut source_account: Account = match load_mut(accounts[0].data()) {
        Ok(a) => a,
        Err(e) => {
            return Err(e);
        },
    };
    match source_account.is_frozen() {
        Ok(true) => {
            return Err(TokenError::AccountFrozen.into());
        },
        Ok(false) => {},
        Err(e) => {
            return Err(e);
        },
    }
    let signers = remaining_accounts(accounts, 2);
    let owner_key = *source_account.owner();
    validate_owner(&owner_key, &accounts[1], signers)?;
    source_account.clear_delegate();
    source_account.set_delegated_amount(0);
    let bytes = source_account.to_bytes();
    write_data(accounts, 0, &bytes);
    Ok(())
}

} // verus!
