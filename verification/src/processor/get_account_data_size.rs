//! The data size of a token account for a mint.
use super::{check_account_owner, check_account_owner_result};
use crate::account_info::{AccountInfo, AccountView};
use crate::error::{token_error, ProgramError, TokenError};
use crate::state::account::ACCOUNT_LEN;
use crate::state::mint::Mint;
use crate::state::{load, load_result, u64_to_le, Transmutable};
use vstd::bytes::spec_u64_to_le_bytes;
use vstd::prelude::*;

verus! {

/// What `GetAccountDataSize` returns: the mint is `accs[0]`; the return data is
/// the token account length as eight little-endian bytes.
pub open spec fn get_account_data_size_result(accs: Seq<AccountView>) -> Result<
    Seq<u8>,
    ProgramError,
> {
    if accs.len() < 1 {
        Err(ProgramError::NotEnoughAccountKeys)
    } else if check_account_owner_result(accs[0]) is Err {
        Err(ProgramError::IncorrectProgramId)
    } else if load_result::<Mint>(accs[0].data) is Err {
        Err(token_error(TokenError::InvalidMint))
    } else {
        Ok(spec_u64_to_le_bytes(ACCOUNT_LEN as u64))
    }
}

/// Returns the size of a token account for a valid mint.
pub fn process_get_account_data_size(accounts: &Vec<AccountInfo>) -> (r: Result<
    Vec<u8>,
    ProgramError,
>)
    ensures
        match r {
            Ok(v) => get_account_data_size_result(accounts.deep_view()) == Ok::<
                Seq<u8>,
                ProgramError,
            >(v@),
            Err(e) => get_account_data_size_result(accounts.deep_view()) == Err::<
                Seq<u8>,
                ProgramError,
            >(e),
        },
{
    if accounts.len() < 1 {
        return Err(ProgramError::NotEnoughAccountKeys);
    }
    check_account_owner(&accounts[0])?;
    let loaded: Result<Mint, ProgramError> = load(accounts[0].data());
    if loaded.is_err() {
        return Err(TokenError::InvalidMint.into());
    }
    let bytes = u64_to_le(ACCOUNT_LEN as u64);
    Ok(vstd::slice::slice_to_vec(bytes.as_slice()))
}

} // verus!
