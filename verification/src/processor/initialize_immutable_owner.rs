//! The immutable owner extension, which this program does not support.
use crate::account_info::{AccountInfo, AccountView};
use crate::error::{token_error, ProgramError, TokenError};
use crate::state::account::{account_initialized, Account};
use crate::state::{load_mut_unchecked, load_unchecked_result, Initializable, Transmutable};
use vstd::prelude::*;

verus! {

/// What `InitializeImmutableOwner` does to the token account `accs[0]`:
/// nothing, once it is checked to be uninitialized.
pub open spec fn initialize_immutable_owner_result(accs: Seq<AccountView>) -> Result<
    (),
    ProgramError,
> {
    if accs.len() < 1 {
        Err(ProgramError::NotEnoughAccountKeys)
    } else if load_unchecked_result(accs[0].data, 165) is Err {
        Err(ProgramError::InvalidAccountData)
    } else if account_initialized(accs[0].data) is Err {
        Err(account_initialized(accs[0].data)->Err_0)
    } else if account_initialized(accs[0].data) == Ok::<bool, ProgramError>(true) {
        Err(token_error(TokenError::AlreadyInUse))
    } else {
        Ok(())
    }
}

/// Checks that the token account is not yet initialized; changes nothing.
pub fn process_initialize_immutable_owner(accounts: &Vec<AccountInfo>) -> (r: Result<
    (),
    ProgramError,
>)
    ensures
        r == initialize_immutable_owner_result(accounts.deep_view()),
{
    if accounts.len() < 1 {
        return Err(ProgramError::NotEnoughAccountKeys);
    }
    let account: Account = match load_mut_unchecked(accounts[0].data()) {
        Ok(a) => a,
        Err(e) => {
            return Err(e);
        },
    };
    match account.is_initialized() {
        Ok(true) => Err(TokenError::AlreadyInUse.into()),
        Ok(false) => Ok(()),
        Err(e) => Err(e),
    }
}

} // verus!
