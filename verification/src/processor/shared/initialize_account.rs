//! Initializing a token account.
use crate::account_info::{with_data, write_data, AccountInfo, AccountView};
use crate::error::{token_error, ProgramError, TokenError};
use crate::native_mint::{is_native_mint, ID as NATIVE_MINT_ID};
use crate::processor::{check_account_owner, check_account_owner_result, outcome};
use crate::pubkey::Pubkey;
use crate::rent::{
    first_data_len, minimum_balance_from_account, minimum_balance_from_sysvar,
    rent_account_minimum_balance, rent_source_computable, rent_sysvar_view,
    rent_value_minimum_balance, RENT_ID,
};
use crate::state::account::{
    account_initialized, account_with_amount, account_with_mint, account_with_native,
    account_with_native_amount, account_with_owner, account_with_state, Account,
};
use crate::state::account_state::AccountState;
use crate::state::mint::Mint;
use crate::state::{
    load, load_mut_unchecked, load_result, load_unchecked_result, Initializable, Transmutable,
};
use vstd::prelude::*;

verus! {

/// The account data after initialization for `mint` and `owner`; a native
/// account also records its rent-exempt reserve and holds its lamports above
/// it as tokens.
pub open spec fn initialized_account(
    d: Seq<u8>,
    mint: Seq<u8>,
    owner: Seq<u8>,
    native: bool,
    reserve: u64,
    lamports: u64,
) -> Seq<u8> {
    let d1 = account_with_owner(
        account_with_mint(account_with_state(d, AccountState::Initialized), mint),
        owner,
    );
    if native {
        account_with_amount(
            account_with_native_amount(account_with_native(d1, true), reserve),
            (lamports - reserve) as u64,
        )
    } else {
        d1
    }
}

/// What initializing a token account does: the account is `accs[0]`, its mint
/// `accs[1]`; the owner is `owner` or else `accs[2]`; with
/// `rent_sysvar_account` the rent sysvar follows, otherwise the runtime's rent
/// value is used. The account must be uninitialized and rent exempt, and a mint
/// other than the native mint must be an initialized token-program mint.
pub open spec fn initialize_account_result(
    accs: Seq<AccountView>,
    owner: Option<Seq<u8>>,
    rent_sysvar_account: bool,
    rent_sysvar: Result<Seq<u8>, ProgramError>,
) -> Result<Seq<AccountView>, ProgramError> {
    let fixed: int = if owner is Some {
        2
    } else {
        3
    };
    if accs.len() < fixed {
        Err(ProgramError::NotEnoughAccountKeys)
    } else if rent_sysvar_account && accs.len() < fixed + 1 {
        Err(ProgramError::NotEnoughAccountKeys)
    } else {
        let new = accs[0];
        let mint = accs[1];
        let owner_key = match owner {
            Some(k) => k,
            None => accs[2].key,
        };
        let reserve = if rent_sysvar_account {
            rent_account_minimum_balance(accs[fixed], new.data.len() as usize)
        } else {
            rent_value_minimum_balance(rent_sysvar, new.data.len() as usize)
        };
        let native = mint.key == NATIVE_MINT_ID@;
        if reserve is Err {
            Err(reserve->Err_0)
        } else if load_unchecked_result(new.data, 165) is Err {
            Err(ProgramError::InvalidAccountData)
        } else if account_initialized(new.data) is Err {
            Err(account_initialized(new.data)->Err_0)
        } else if account_initialized(new.data) == Ok::<bool, ProgramError>(true) {
            Err(token_error(TokenError::AlreadyInUse))
        } else if new.lamports < reserve->Ok_0 {
            Err(token_error(TokenError::NotRentExempt))
        } else if !native && check_account_owner_result(mint) is Err {
            Err(ProgramError::IncorrectProgramId)
        } else if !native && load_result::<Mint>(mint.data) is Err {
            Err(token_error(TokenError::InvalidMint))
        } else {
            Ok(
                with_data(
                    accs,
                    new.key,
                    initialized_account(
                        new.data,
                        mint.key,
                        owner_key,
                        native,
                        reserve->Ok_0,
                        new.lamports,
                    ),
                ),
            )
        }
    }
}

/// Initializes a new token account for a mint and an owner.
pub fn process_initialize_account(
    accounts: &mut Vec<AccountInfo>,
    owner: Option<&Pubkey>,
    rent_sysvar_account: bool,
    rent_sysvar: &Result<Vec<u8>, ProgramError>,
) -> (r: Result<(), ProgramError>)
    requires
        rent_source_computable(
            old(accounts).deep_view(),
            rent_sysvar_account,
            if owner is Some {
                2
            } else {
                3
            },
            rent_sysvar_view(rent_sysvar),
            first_data_len(old(accounts).deep_view()),
        ),
    ensures
        outcome(r, final(accounts).deep_view()) == initialize_account_result(
            old(accounts).deep_view(),
            match owner {
                Some(k) => Some(k@),
                None => None,
            },
            rent_sysvar_account,
            rent_sysvar_view(rent_sysvar),
        ),
        r is Err ==> final(accounts).deep_view() == old(accounts).deep_view(),
{
    let ghost accs = accounts.deep_view();
    let fixed: usize = if owner.is_some() {
        2
    } else {
        3
    };
    if accounts.len() < fixed {
        return Err(ProgramError::NotEnoughAccountKeys);
    }
    let owner_key: Pubkey = match owner {
        Some(k) => *k,
        None => accounts[2].key,
    };
    let data_len = accounts[0].data_len();
    let reserve = if rent_sysvar_account {
        if accounts.len() < fixed + 1 {
            return Err(ProgramError::NotEnoughAccountKeys);
        }
        proof {
            if accs[fixed as int].key == RENT_ID@ {
                assert(crate::rent::rent_computable(
                    accs[fixed as int].data,
                    accs[0].data.len() as usize,
                ));
            }
        }
        minimum_balance_from_account(&accounts[fixed], data_len)?
    } else {
        proof {
            if rent_sysvar is Ok {
                assert(crate::rent::rent_computable(
                    rent_sysvar->Ok_0@,
                    accs[0].data.len() as usize,
                ));
            }
        }
        minimum_balance_from_sysvar(rent_sysvar, data_len)?
    };
    let native = is_native_mint(accounts[1].key());
    let mut account: Account = match load_mut_unchecked(accounts[0].data()) {
        Ok(a) => a,
        Err(e) => {
            return Err(e);
        },
    };
    match account.is_initialized() {
        Ok(true) => {
            return Err(TokenError::AlreadyInUse.into());
        },
        Ok(false) => {},
        Err(e) => {
            return Err(e);
        },
    }
    let lamports = accounts[0].lamports();
    if lamports < reserve {
        return Err(TokenError::NotRentExempt.into());
    }
    if !native {
        check_account_owner(&accounts[1])?;
        let loaded: Result<Mint, ProgramError> = load(accounts[1].data());
        if loaded.is_err() {
            return Err(TokenError::InvalidMint.into());
        }
    }
    let mint_key = accounts[1].key;
    account.set_account_state(AccountState::Initialized);
    account.set_mint(&mint_key);
    account.set_owner(&owner_key);
    if native {
        account.set_native(true);
        account.set_native_amount(reserve);
        account.set_amount(lamports - reserve);
    }
    let bytes = account.to_bytes();
    write_data(accounts, 0, &bytes);
    Ok(())
}

} // verus!
