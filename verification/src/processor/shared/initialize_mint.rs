//! Initializing a mint.
use crate::account_info::{with_data, write_data, AccountInfo, AccountView};
use crate::error::{token_error, ProgramError, TokenError};
use crate::processor::outcome;
use crate::pubkey::Pubkey;
use crate::rent::{
    minimum_balance_from_account, minimum_balance_from_sysvar, rent_account_minimum_balance,
    rent_source_computable, rent_sysvar_view, rent_value_minimum_balance, RENT_ID,
};
use crate::state::mint::{
    mint_initialized, mint_with_decimals, mint_with_freeze_authority, mint_with_initialized,
    mint_with_mint_authority, mint_without_freeze_authority, Mint, MINT_LEN,
};
use crate::state::{
    load_mut_unchecked, load_unchecked_result, read_array, Initializable, Transmutable,
};
use vstd::prelude::*;

verus! {

/// Decoded `InitializeMint` instruction data: the decimals, the mint authority
/// and the optional freeze authority.
pub struct InitializeMint {
    pub decimals: u8,
    pub mint_authority: Pubkey,
    pub freeze_authority: Option<Pubkey>,
}

/// What decoding `InitializeMint` data gives: the decimals, the 32 bytes of
/// the mint authority, then 0 for no freeze authority or 1 followed by the 32
/// bytes of the freeze authority; bytes after those are not read. Data too
/// short for that, or another tag, is an invalid instruction.
pub open spec fn initialize_mint_args(data: Seq<u8>) -> Result<
    (u8, Seq<u8>, Option<Seq<u8>>),
    ProgramError,
> {
    if data.len() < 34 || data[33] > 1 || (data[33] == 1 && data.len() < 66) {
        Err(token_error(TokenError::InvalidInstruction))
    } else if data[33] == 0 {
        Ok((data[0], data.subrange(1, 33), None))
    } else {
        Ok((data[0], data.subrange(1, 33), Some(data.subrange(34, 66))))
    }
}

impl InitializeMint {
    /// The decoded data as plain values.
    pub open spec fn spec_value(self) -> (u8, Seq<u8>, Option<Seq<u8>>) {
        (
            self.decimals,
            self.mint_authority@,
            match self.freeze_authority {
                Some(k) => Some(k@),
                None => None,
            },
        )
    }

    /// Decodes `InitializeMint` instruction data.
    pub fn try_from_bytes(data: &[u8]) -> (r: Result<InitializeMint, ProgramError>)
        ensures
            match r {
                Ok(v) => initialize_mint_args(data@) == Ok::<
                    (u8, Seq<u8>, Option<Seq<u8>>),
                    ProgramError,
                >(v.spec_value()),
                Err(e) => initialize_mint_args(data@) == Err::<
                    (u8, Seq<u8>, Option<Seq<u8>>),
                    ProgramError,
                >(e),
            },
    {
        if data.len() < 34 || data[33] > 1 || (data[33] == 1 && data.len() < 66) {
            Err(TokenError::InvalidInstruction.into())
        } else if data[33] == 0 {
            Ok(
                InitializeMint {
                    decimals: data[0],
                    mint_authority: read_array::<32>(data, 1),
                    freeze_authority: None,
                },
            )
        } else {
            Ok(
                InitializeMint {
                    decimals: data[0],
                    mint_authority: read_array::<32>(data, 1),
                    freeze_authority: Some(read_array::<32>(data, 34)),
                },
            )
        }
    }
}

/// The mint data after initialization.
pub open spec fn initialized_mint(
    m: Seq<u8>,
    decimals: u8,
    mint_authority: Seq<u8>,
    freeze_authority: Option<Seq<u8>>,
) -> Seq<u8> {
    let m1 = mint_with_decimals(
        mint_with_mint_authority(mint_with_initialized(m), mint_authority),
        decimals,
    );
    match freeze_authority {
        Some(k) => mint_with_freeze_authority(m1, k),
        None => mint_without_freeze_authority(m1),
    }
}

/// What initializing a mint does: the mint is `accs[0]` and, when
/// `rent_sysvar_account_provided`, the rent sysvar is `accs[1]`; otherwise the
/// runtime's rent value is used. The mint must be uninitialized and rent exempt.
pub open spec fn initialize_mint_result(
    accs: Seq<AccountView>,
    data: Seq<u8>,
    rent_sysvar_account_provided: bool,
    rent_sysvar: Result<Seq<u8>, ProgramError>,
) -> Result<Seq<AccountView>, ProgramError> {
    match initialize_mint_args(data) {
        Err(e) => Err(e),
        Ok((decimals, mint_authority, freeze_authority)) => {
            if accs.len() < (if rent_sysvar_account_provided {
                2int
            } else {
                1int
            }) {
                Err(ProgramError::NotEnoughAccountKeys)
            } else {
                let m = accs[0].data;
                let reserve = if rent_sysvar_account_provided {
                    rent_account_minimum_balance(accs[1], 82)
                } else {
                    rent_value_minimum_balance(rent_sysvar, 82)
                };
                if load_unchecked_result(m, 82) is Err {
                    Err(ProgramError::InvalidAccountData)
                } else if mint_initialized(m) is Err {
                    Err(mint_initialized(m)->Err_0)
                } else if mint_initialized(m) == Ok::<bool, ProgramError>(true) {
                    Err(token_error(TokenError::AlreadyInUse))
                } else if reserve is Err {
                    Err(reserve->Err_0)
                } else if accs[0].lamports < reserve->Ok_0 {
                    Err(token_error(TokenError::NotRentExempt))
                } else {
                    Ok(
                        with_data(
                            accs,
                            accs[0].key,
                            initialized_mint(m, decimals, mint_authority, freeze_authority),
                        ),
                    )
                }
            }
        },
    }
}

/// Initializes a new mint with its decimals, mint authority and optional freeze
/// authority.
pub fn process_initialize_mint(
    accounts: &mut Vec<AccountInfo>,
    instruction_data: &[u8],
    rent_sysvar_account_provided: bool,
    rent_sysvar: &Result<Vec<u8>, ProgramError>,
) -> (r: Result<(), ProgramError>)
    requires
        rent_source_computable(
            old(accounts).deep_view(),
            rent_sysvar_account_provided,
            1,
            rent_sysvar_view(rent_sysvar),
            82,
        ),
    ensures
        outcome(r, final(accounts).deep_view()) == initialize_mint_result(
            old(accounts).deep_view(),
            instruction_data@,
            rent_sysvar_account_provided,
            rent_sysvar_view(rent_sysvar),
        ),
        r is Err ==> final(accounts).deep_view() == old(accounts).deep_view(),
{
    let ghost accs = accounts.deep_view();
    let args = InitializeMint::try_from_bytes(instruction_data)?;
    if accounts.len() < (if rent_sysvar_account_provided {
        2
    } else {
        1
    }) {
        return Err(ProgramError::NotEnoughAccountKeys);
    }
    let mut mint: Mint = match load_mut_unchecked(accounts[0].data()) {
        Ok(m) => m,
        Err(e) => {
            return Err(e);
        },
    };
    match mint.is_initialized() {
        Ok(true) => {
            return Err(TokenError::AlreadyInUse.into());
        },
        Ok(false) => {},
        Err(e) => {
            return Err(e);
        },
    }
    let reserve = if rent_sysvar_account_provided {
        proof {
            if accs[1].key == RENT_ID@ {
                assert(crate::rent::rent_computable(accs[1].data, 82));
            }
        }
        minimum_balance_from_account(&accounts[1], MINT_LEN)?
    } else {
        minimum_balance_from_sysvar(rent_sysvar, MINT_LEN)?
    };
    if accounts[0].lamports() < reserve {
        return Err(TokenError::NotRentExempt.into());
    }
    mint.set_initialized();
    mint.set_mint_authority(&args.mint_authority);
    mint.set_decimals(args.decimals);
    match args.freeze_authority {
        Some(freeze_authority) => mint.set_freeze_authority(&freeze_authority),
        None => mint.clear_freeze_authority(),
    }
    let bytes = mint.to_bytes();
    write_data(accounts, 0, &bytes);
    Ok(())
}

} // verus!
