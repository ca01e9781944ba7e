//! Changing the authority of a mint or a token account.
use super::{
    authority_well_formed, outcome, remaining_accounts, validate_owner, validate_owner_result,
};
use crate::account_info::{with_data, write_data, AccountInfo, AccountView};
use crate::error::{token_error, ProgramError, TokenError};
use crate::instruction::AuthorityType;
use crate::pubkey::Pubkey;
use crate::state::account::{
    account_close_authority, account_is_frozen, account_is_native, account_owner,
    account_with_close_authority, account_with_delegated_amount, account_with_owner,
    account_without_close_authority, account_without_delegate, Account, ACCOUNT_LEN,
};
use crate::state::mint::{
    mint_freeze_authority, mint_mint_authority, mint_with_freeze_authority,
    mint_with_mint_authority, mint_without_freeze_authority, mint_without_mint_authority, Mint,
    MINT_LEN,
};
use crate::state::{load_mut, load_result, read_array, Transmutable};
use vstd::prelude::*;

verus! {

/// The token account's data after its owner changes to `new_owner`: the
/// delegate is cleared with its allowance and, for a native account, the close
/// authority too.
pub open spec fn account_after_owner_change(s: Seq<u8>, new_owner: Seq<u8>) -> Seq<u8> {
    let s1 = account_with_delegated_amount(
        account_without_delegate(account_with_owner(s, new_owner)),
        0,
    );
    if account_is_native(s) {
        account_without_close_authority(s1)
    } else {
        s1
    }
}

/// What setting an authority does: the mint or token account is `accs[0]`, its
/// current authority `accs[1]`, then multisig signers. A token account takes
/// the owner and close authorities, a mint the mint and freeze authorities.
pub open spec fn set_authority_result(
    accs: Seq<AccountView>,
    authority_type: AuthorityType,
    new_authority: Option<Seq<u8>>,
) -> Result<Seq<AccountView>, ProgramError> {
    if accs.len() < 2 {
        Err(ProgramError::NotEnoughAccountKeys)
    } else {
        let d = accs[0].data;
        let auth = accs[1];
        let signers = accs.subrange(2, accs.len() as int);
        if d.len() == 165 {
            if load_result::<Account>(d) is Err {
                Err(load_result::<Account>(d)->Err_0)
            } else if account_is_frozen(d) == Ok::<bool, ProgramError>(true) {
                Err(token_error(TokenError::AccountFrozen))
            } else {
                match authority_type {
                    AuthorityType::AccountOwner => if validate_owner_result(
                        account_owner(d),
                        auth,
                        signers,
                    ) is Err {
                        Err(validate_owner_result(account_owner(d), auth, signers)->Err_0)
                    } else {
                        match new_authority {
                            None => Err(token_error(TokenError::InvalidInstruction)),
                            Some(k) => Ok(
                                with_data(accs, accs[0].key, account_after_owner_change(d, k)),
                            ),
                        }
                    },
                    AuthorityType::CloseAccount => {
                        let current = match account_close_authority(d) {
                            Some(k) => k,
                            None => account_owner(d),
                        };
                        if validate_owner_result(current, auth, signers) is Err {
                            Err(validate_owner_result(current, auth, signers)->Err_0)
                        } else {
                            Ok(
                                with_data(
                                    accs,
                                    accs[0].key,
                                    match new_authority {
                                        Some(k) => account_with_close_authority(d, k),
                                        None => account_without_close_authority(d),
                                    },
                                ),
                            )
                        }
                    },
                    _ => Err(token_error(TokenError::AuthorityTypeNotSupported)),
                }
            }
        } else if d.len() == 82 {
            if load_result::<Mint>(d) is Err {
                Err(load_result::<Mint>(d)->Err_0)
            } else {
                match authority_type {
                    AuthorityType::MintTokens => match mint_mint_authority(d) {
                        None => Err(token_error(TokenError::FixedSupply)),
                        Some(current) => if validate_owner_result(current, auth, signers) is Err {
                            Err(validate_owner_result(current, auth, signers)->Err_0)
                        } else {
                            Ok(
                                with_data(
                                    accs,
                                    accs[0].key,
                                    match new_authority {
                                        Some(k) => mint_with_mint_authority(d, k),
                                        None => mint_without_mint_authority(d),
                                    },
                                ),
                            )
                        },
                    },
                    AuthorityType::FreezeAccount => match mint_freeze_authority(d) {
                        None => Err(token_error(TokenError::MintCannotFreeze)),
                        Some(current) => if validate_owner_result(current, auth, signers) is Err {
                            Err(validate_owner_result(current, auth, signers)->Err_0)
                        } else {
                            Ok(
                                with_data(
                                    accs,
                                    accs[0].key,
                                    match new_authority {
                                        Some(k) => mint_with_freeze_authority(d, k),
                                        None => mint_without_freeze_authority(d),
                                    },
                                ),
                            )
                        },
                    },
                    _ => Err(token_error(TokenError::AuthorityTypeNotSupported)),
                }
            }
        } else {
            Err(ProgramError::InvalidArgument)
        }
    }
}

/// Sets a new authority of a mint or account; the current authority must
/// authorize it. A mint's fixed supply or disabled freeze authority cannot be
/// re-enabled, and an account's owner cannot be removed.
pub fn process_set_authority(
    accounts: &mut Vec<AccountInfo>,
    authority_type: AuthorityType,
    new_authority: Option<&Pubkey>,
) -> (r: Result<(), ProgramError>)
    requires
        authority_well_formed(old(accounts).deep_view(), 1),
    ensures
        outcome(r, final(accounts).deep_view()) == set_authority_result(
            old(accounts).deep_view(),
            authority_type,
            match new_authority {
                Some(k) => Some(k@),
                None => None,
            },
        ),
        r is Err ==> final(accounts).deep_view() == old(accounts).deep_view(),
{
    if accounts.len() < 2 {
        return Err(ProgramError::NotEnoughAccountKeys);
    }
    let data_len = accounts[0].data_len();
    let signers = remaining_accounts(accounts, 2);
    if data_len == ACCOUNT_LEN {
        let mut account: Account = match load_mut(accounts[0].data()) {
            Ok(a) => a,
            Err(e) => {
                return Err(e);
            },
        };
        match account.is_frozen() {
            Ok(true) => {
                return Err(TokenError::AccountFrozen.into());
            },
            Ok(false) => {},
            Err(e) => {
                return Err(e);
            },
        }
        match authority_type {
            AuthorityType::AccountOwner => {
                let owner_key = *account.owner();
                validate_owner(&owner_key, &accounts[1], signers)?;
                let native = account.is_native();
                match new_authority {
                    Some(k) => account.set_owner(k),
                    None => {
                        return Err(TokenError::InvalidInstruction.into());
                    },
                }
                account.clear_delegate();
                account.set_delegated_amount(0);
                if native {
                    account.clear_close_authority();
                }
            },
            AuthorityType::CloseAccount => {
                let current = match account.close_authority() {
                    Some(k) => *k,
                    None => *account.owner(),
                };
                validate_owner(&current, &accounts[1], signers)?;
                match new_authority {
                    Some(k) => account.set_close_authority(k),
                    None => account.clear_close_authority(),
                }
            },
            _ => {
                return Err(TokenError::AuthorityTypeNotSupported.into());
            },
        }
        let bytes = account.to_bytes();
        write_data(accounts, 0, &bytes);
    } else if data_len == MINT_LEN {
        let mut mint: Mint = match load_mut(accounts[0].data()) {
            Ok(m) => m,
            Err(e) => {
                return Err(e);
            },
        };
        match authority_type {
            AuthorityType::MintTokens => {
                let current = match mint.mint_authority() {
                    Some(k) => *k,
                    None => {
                        return Err(TokenError::FixedSupply.into());
                    },
                };
                validate_owner(&current, &accounts[1], signers)?;
                match new_authority {
                    Some(k) => mint.set_mint_authority(k),
                    None => mint.clear_mint_authority(),
                }
            },
            AuthorityType::FreezeAccount => {
                let current = match mint.freeze_authority() {
                    Some(k) => *k,
                    None => {
                        return Err(TokenError::MintCannotFreeze.into());
                    },
                };
                validate_owner(&current, &accounts[1], signers)?;
                match new_authority {
                    Some(k) => mint.set_freeze_authority(k),
                    None => mint.clear_freeze_authority(),
                }
            },
            _ => {
                return Err(TokenError::AuthorityTypeNotSupported.into());
            },
        }
        let bytes = mint.to_bytes();
        write_data(accounts, 0, &bytes);
    } else {
        return Err(ProgramError::InvalidArgument);
    }
    Ok(())
}

/// Instruction data for the `SetAuthority` instruction.
pub struct SetAuthority {
    /// The type of authority to update.
    pub authority_type: AuthorityType,
    /// New authority.
    pub new_authority: Option<Pubkey>,
}

/// What decoding `SetAuthority` instruction data gives: the authority type,
/// then 0 for no new authority or 1 followed by the 32 bytes of the new
/// authority. Data too short for that, an unknown authority type or another
/// tag is an invalid instruction.
pub open spec fn set_authority_from_bytes(data: Seq<u8>) -> Result<
    (AuthorityType, Option<Seq<u8>>),
    ProgramError,
> {
    if data.len() < 2 {
        Err(token_error(TokenError::InvalidInstruction))
    } else if data[1] != 0 && !(data[1] == 1 && data.len() >= 34) {
        Err(token_error(TokenError::InvalidInstruction))
    } else {
        match AuthorityType::spec_from_u8(data[0]) {
            None => Err(token_error(TokenError::InvalidInstruction)),
            Some(t) => Ok(
                (
                    t,
                    if data[1] == 0 {
                        None
                    } else {
                        Some(data.subrange(2, 34))
                    },
                ),
            ),
        }
    }
}

impl SetAuthority {
    /// The decoded instruction as plain values.
    pub open spec fn spec_value(self) -> (AuthorityType, Option<Seq<u8>>) {
        (
            self.authority_type,
            match self.new_authority {
                Some(k) => Some(k@),
                None => None,
            },
        )
    }

    /// Decodes `SetAuthority` instruction data.
    pub fn try_from_bytes(data: &[u8]) -> (r: Result<SetAuthority, ProgramError>)
        ensures
            match r {
                Ok(v) => set_authority_from_bytes(data@) == Ok::<
                    (AuthorityType, Option<Seq<u8>>),
                    ProgramError,
                >(v.spec_value()),
                Err(e) => set_authority_from_bytes(data@) == Err::<
                    (AuthorityType, Option<Seq<u8>>),
                    ProgramError,
                >(e),
            },
    {
        if data.len() < 2 {
            return Err(TokenError::InvalidInstruction.into());
        }
        let new_authority = if data[1] == 0 {
            None
        } else if data[1] == 1 && data.len() >= 34 {
            Some(read_array::<32>(data, 2))
        } else {
            return Err(TokenError::InvalidInstruction.into());
        };
        let authority_type = AuthorityType::try_from(data[0])?;
        Ok(SetAuthority { authority_type, new_authority })
    }
}

} // verus!
