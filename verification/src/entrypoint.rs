//! Dispatching instruction data to the processors.
//!
//! The first byte of the instruction data selects the instruction; 255 selects
//! a batch of instructions. An instruction's outcome is the accounts after it
//! together with the return data it set, or its error.
use crate::account_info::{AccountInfo, AccountView};
use crate::error::{token_error, ProgramError, TokenError};
use crate::processor::amount_to_ui_amount::{
    amount_to_ui_amount_panics, amount_to_ui_amount_result, process_amount_to_ui_amount,
};
use crate::processor::approve::{approve_data_result, process_approve};
use crate::processor::approve_checked::{approve_checked_data_result, process_approve_checked};
use crate::admissible::instruction_valid;
use crate::processor::batch::{batch_admissible, batch_result, process_batch, try_process_batch};
use crate::processor::burn::{burn_data_result, process_burn};
use crate::processor::burn_checked::{burn_checked_data_result, process_burn_checked};
use crate::processor::close_account::{close_account_result, process_close_account};
use crate::processor::freeze_account::process_freeze_account;
use crate::processor::get_account_data_size::{
    get_account_data_size_result, process_get_account_data_size,
};
use crate::processor::initialize_account::process_initialize_account;
use crate::processor::initialize_account2::{
    initialize_account2_data_result, process_initialize_account2,
};
use crate::processor::initialize_account3::{
    initialize_account3_data_result, process_initialize_account3,
};
use crate::processor::initialize_immutable_owner::{
    initialize_immutable_owner_result, process_initialize_immutable_owner,
};
use crate::processor::initialize_mint::process_initialize_mint;
use crate::processor::initialize_mint2::process_initialize_mint2;
use crate::processor::initialize_multisig::{
    initialize_multisig_data_result, process_initialize_multisig,
};
use crate::processor::initialize_multisig2::process_initialize_multisig2;
use crate::processor::mint_to::{mint_to_data_result, process_mint_to};
use crate::processor::mint_to_checked::{mint_to_checked_data_result, process_mint_to_checked};
use crate::processor::revoke::{process_revoke, revoke_result};
use crate::processor::set_authority::{
    process_set_authority, set_authority_from_bytes, set_authority_result, SetAuthority,
};
use crate::processor::shared::initialize_account::initialize_account_result;
use crate::processor::shared::initialize_mint::initialize_mint_result;
use crate::processor::shared::initialize_multisig::initialize_multisig_result;
use crate::processor::shared::toggle_account_state::toggle_account_state_result;
use crate::processor::sync_native::{process_sync_native, sync_native_result};
use crate::processor::thaw_account::process_thaw_account;
use crate::processor::transfer::{process_transfer, transfer_result};
use crate::processor::transfer_checked::{process_transfer_checked, transfer_checked_data_result};
use crate::processor::ui_amount_to_amount::{
    process_ui_amount_to_amount_data, ui_amount_to_amount_data_result,
};
use crate::processor::withdraw_excess_lamports::{
    process_withdraw_excess_lamports, withdraw_excess_lamports_result,
};
use crate::processor::{authority_well_formed, data_u64, outcome, read_u64};
use crate::pubkey::Pubkey;
use crate::rent::{first_data_len, rent_account_computable, rent_sysvar_view, rent_value_computable};
use vstd::prelude::*;

verus! {

/// The outcome of an instruction that sets no return data.
pub open spec fn no_return(r: Result<Seq<AccountView>, ProgramError>) -> Result<
    (Seq<AccountView>, Option<Seq<u8>>),
    ProgramError,
> {
    match r {
        Ok(accs) => Ok((accs, None)),
        Err(e) => Err(e),
    }
}

/// The outcome of an instruction that leaves the accounts `accs` as they are
/// and sets the return data it computed.
pub open spec fn with_return(accs: Seq<AccountView>, r: Result<Seq<u8>, ProgramError>) -> Result<
    (Seq<AccountView>, Option<Seq<u8>>),
    ProgramError,
> {
    match r {
        Ok(v) => Ok((accs, Some(v))),
        Err(e) => Err(e),
    }
}

/// An executed instruction's result and the accounts after it, as a value.
pub open spec fn instruction_outcome(
    r: Result<Option<Vec<u8>>, ProgramError>,
    accs: Seq<AccountView>,
) -> Result<(Seq<AccountView>, Option<Seq<u8>>), ProgramError> {
    match r {
        Ok(Some(v)) => Ok((accs, Some(v@))),
        Ok(None) => Ok((accs, None)),
        Err(e) => Err(e),
    }
}

/// What a regular instruction does: the first byte selects it, the rest is its
/// data. `rent` is the runtime's rent sysvar value.
pub open spec fn instruction_result(
    accs: Seq<AccountView>,
    data: Seq<u8>,
    rent: Result<Seq<u8>, ProgramError>,
) -> Result<(Seq<AccountView>, Option<Seq<u8>>), ProgramError> {
    if data.len() == 0 {
        Err(token_error(TokenError::InvalidInstruction))
    } else {
        let d = data[0];
        let rest = data.subrange(1, data.len() as int);
        if d == 0 {
            no_return(initialize_mint_result(accs, rest, true, rent))
        } else if d == 1 {
            no_return(initialize_account_result(accs, None, true, rent))
        } else if d == 3 {
            if rest.len() < 8 {
                Err(token_error(TokenError::InvalidInstruction))
            } else {
                no_return(transfer_result(accs, data_u64(rest), None))
            }
        } else if d == 7 {
            no_return(mint_to_data_result(accs, rest))
        } else if d == 8 {
            no_return(burn_data_result(accs, rest))
        } else if d == 9 {
            no_return(close_account_result(accs))
        } else if d == 12 {
            no_return(transfer_checked_data_result(accs, rest))
        } else if d == 15 {
            no_return(burn_checked_data_result(accs, rest))
        } else if d == 16 {
            no_return(initialize_account2_data_result(accs, rest, rent))
        } else if d == 18 {
            no_return(initialize_account3_data_result(accs, rest, rent))
        } else if d == 20 {
            no_return(initialize_mint_result(accs, rest, false, rent))
        } else {
            remaining_instruction_result(accs, rest, d, rent)
        }
    }
}

/// What the less frequent instructions do, `d` being the discriminator and
/// `rest` the data after it. Unknown discriminators are invalid instructions.
pub open spec fn remaining_instruction_result(
    accs: Seq<AccountView>,
    rest: Seq<u8>,
    d: u8,
    rent: Result<Seq<u8>, ProgramError>,
) -> Result<(Seq<AccountView>, Option<Seq<u8>>), ProgramError> {
    if d == 2 {
        no_return(initialize_multisig_data_result(accs, rest, rent))
    } else if d == 4 {
        no_return(approve_data_result(accs, rest))
    } else if d == 5 {
        no_return(revoke_result(accs))
    } else if d == 6 {
        match set_authority_from_bytes(rest) {
            Err(e) => Err(e),
            Ok(args) => no_return(set_authority_result(accs, args.0, args.1)),
        }
    } else if d == 10 {
        no_return(toggle_account_state_result(accs, true))
    } else if d == 11 {
        no_return(toggle_account_state_result(accs, false))
    } else if d == 13 {
        no_return(approve_checked_data_result(accs, rest))
    } else if d == 14 {
        no_return(mint_to_checked_data_result(accs, rest))
    } else if d == 17 {
        no_return(sync_native_result(accs))
    } else if d == 19 {
        if rest.len() == 0 {
            Err(ProgramError::InvalidInstructionData)
        } else {
            no_return(initialize_multisig_result(accs, rest[0], false, rent))
        }
    } else if d == 21 {
        with_return(accs, get_account_data_size_result(accs))
    } else if d == 22 {
        match initialize_immutable_owner_result(accs) {
            Ok(()) => Ok((accs, None)),
            Err(e) => Err(e),
        }
    } else if d == 23 {
        with_return(accs, amount_to_ui_amount_result(accs, rest))
    } else if d == 24 {
        with_return(accs, ui_amount_to_amount_data_result(accs, rest))
    } else if d == 38 {
        no_return(withdraw_excess_lamports_result(accs, rent))
    } else {
        Err(token_error(TokenError::InvalidInstruction))
    }
}

/// The inputs on which the instruction with discriminator `d` and data
/// `rest` runs without panicking or overflowing: the account it validates its
/// authority with is no multisig recording more than the maximum number of
/// signers, its rent computation fits in a `u64`, and an amount is not
/// formatted with twenty or more decimals.
pub open spec fn discriminated_admissible(
    accs: Seq<AccountView>,
    d: u8,
    rest: Seq<u8>,
    rent: Result<Seq<u8>, ProgramError>,
) -> bool {
    let len0 = first_data_len(accs);
    &&& d == 0 ==> rent_account_computable(accs, 1, 82)
    &&& d == 1 ==> rent_account_computable(accs, 3, len0)
    &&& d == 2 ==> rent_account_computable(accs, 1, len0)
    &&& d == 16 ==> rent_account_computable(accs, 2, len0)
    &&& (d == 18 || d == 19 || d == 38) ==> rent_value_computable(rent, len0)
    &&& d == 20 ==> rent_value_computable(rent, 82)
    &&& (d == 5 || d == 6) ==> authority_well_formed(accs, 1)
    &&& (d == 3 || d == 4 || d == 7 || d == 8 || d == 9 || d == 10 || d == 11 || d == 14 || d
        == 15 || d == 38) ==> authority_well_formed(accs, 2)
    &&& (d == 12 || d == 13) ==> authority_well_formed(accs, 3)
    &&& d == 23 ==> !amount_to_ui_amount_panics(accs, rest)
}

/// The inputs on which a regular instruction runs without panicking or
/// overflowing (see `discriminated_admissible`).
pub open spec fn instruction_admissible(
    accs: Seq<AccountView>,
    data: Seq<u8>,
    rent: Result<Seq<u8>, ProgramError>,
) -> bool {
    data.len() >= 1 ==> discriminated_admissible(
        accs,
        data[0],
        data.subrange(1, data.len() as int),
        rent,
    )
}

/// What the program does with an instruction: 255 selects a batch of the
/// instructions that follow, any other first byte a regular instruction. No
/// batch is nested in another, since a batch's instructions are regular ones.
pub open spec fn process_instruction_result(
    accs: Seq<AccountView>,
    data: Seq<u8>,
    rent: Result<Seq<u8>, ProgramError>,
) -> Result<(Seq<AccountView>, Option<Seq<u8>>), ProgramError> {
    if data.len() == 0 {
        Err(token_error(TokenError::InvalidInstruction))
    } else if data[0] == 255 {
        batch_result(accs, 0, data.subrange(1, data.len() as int), rent, None)
    } else {
        instruction_result(accs, data, rent)
    }
}

/// The inputs on which the program runs without panicking or overflowing.
pub open spec fn process_instruction_admissible(
    accs: Seq<AccountView>,
    data: Seq<u8>,
    rent: Result<Seq<u8>, ProgramError>,
) -> bool {
    data.len() >= 1 ==> if data[0] == 255 {
        batch_admissible(accs, 0, data.subrange(1, data.len() as int), rent)
    } else {
        instruction_admissible(accs, data, rent)
    }
}

/// Processes an instruction of the token program. `rent_sysvar` is the
/// runtime's rent sysvar value (or the error of reading it); the result holds
/// the return data the instruction set, if any.
pub fn process_instruction(
    _program_id: &Pubkey,
    accounts: &mut Vec<AccountInfo>,
    instruction_data: &[u8],
    rent_sysvar: &Result<Vec<u8>, ProgramError>,
) -> (r: Result<Option<Vec<u8>>, ProgramError>)
    requires
        process_instruction_admissible(
            old(accounts).deep_view(),
            instruction_data@,
            rent_sysvar_view(rent_sysvar),
        ),
    ensures
        instruction_outcome(r, final(accounts).deep_view()) == process_instruction_result(
            old(accounts).deep_view(),
            instruction_data@,
            rent_sysvar_view(rent_sysvar),
        ),
        r is Err ==> final(accounts).deep_view() == old(accounts).deep_view(),
{
    if instruction_data.len() == 0 {
        return Err(TokenError::InvalidInstruction.into());
    }
    if instruction_data[0] == 255 {
        let remaining = vstd::slice::slice_subrange(instruction_data, 1, instruction_data.len());
        process_batch(accounts, remaining, rent_sysvar)
    } else {
        inner_process_instruction(accounts, instruction_data, rent_sysvar)
    }
}

/// Processes an instruction of the token program if it runs without panicking
/// or overflowing (see `process_instruction_admissible`); otherwise answers
/// `None` and changes nothing.
pub fn try_process_instruction(
    program_id: &Pubkey,
    accounts: &mut Vec<AccountInfo>,
    instruction_data: &[u8],
    rent_sysvar: &Result<Vec<u8>, ProgramError>,
) -> (r: Option<Result<Option<Vec<u8>>, ProgramError>>)
    ensures
        r is None <==> !process_instruction_admissible(
            old(accounts).deep_view(),
            instruction_data@,
            rent_sysvar_view(rent_sysvar),
        ),
        r matches Some(x) ==> instruction_outcome(x, final(accounts).deep_view())
            == process_instruction_result(
            old(accounts).deep_view(),
            instruction_data@,
            rent_sysvar_view(rent_sysvar),
        ),
        r is None || r->0 is Err ==> final(accounts).deep_view() == old(accounts).deep_view(),
{
    if instruction_data.len() == 0 {
        return Some(Err(TokenError::InvalidInstruction.into()));
    }
    if instruction_data[0] == 255 {
        let remaining = vstd::slice::slice_subrange(instruction_data, 1, instruction_data.len());
        try_process_batch(accounts, remaining, rent_sysvar)
    } else if !instruction_valid(accounts.as_slice(), instruction_data, rent_sysvar) {
        None
    } else {
        Some(process_instruction(program_id, accounts, instruction_data, rent_sysvar))
    }
}

/// An instruction without return data as an instruction result.
fn without_return(r: Result<(), ProgramError>) -> (o: Result<Option<Vec<u8>>, ProgramError>)
    ensures
        match r {
            Ok(()) => o == Ok::<Option<Vec<u8>>, ProgramError>(None),
            Err(e) => o == Err::<Option<Vec<u8>>, ProgramError>(e),
        },
{
    match r {
        Ok(()) => Ok(None),
        Err(e) => Err(e),
    }
}

/// Return data as an instruction result.
fn returning(r: Result<Vec<u8>, ProgramError>) -> (o: Result<Option<Vec<u8>>, ProgramError>)
    ensures
        match r {
            Ok(v) => o is Ok && o->Ok_0 is Some && o->Ok_0->0@ == v@,
            Err(e) => o == Err::<Option<Vec<u8>>, ProgramError>(e),
        },
{
    match r {
        Ok(v) => Ok(Some(v)),
        Err(e) => Err(e),
    }
}

/// Processes a regular (not batched) instruction. The processor is split in
/// two so that the most frequent instructions are matched first:
/// `InitializeMint`, `InitializeAccount`, `Transfer`, `MintTo`, `Burn`,
/// `CloseAccount`, `TransferChecked`, `BurnChecked`, `InitializeAccount2`,
/// `InitializeAccount3` and `InitializeMint2`.
pub fn inner_process_instruction(
    accounts: &mut Vec<AccountInfo>,
    instruction_data: &[u8],
    rent_sysvar: &Result<Vec<u8>, ProgramError>,
) -> (r: Result<Option<Vec<u8>>, ProgramError>)
    requires
        instruction_admissible(
            old(accounts).deep_view(),
            instruction_data@,
            rent_sysvar_view(rent_sysvar),
        ),
    ensures
        instruction_outcome(r, final(accounts).deep_view()) == instruction_result(
            old(accounts).deep_view(),
            instruction_data@,
            rent_sysvar_view(rent_sysvar),
        ),
        r is Err ==> final(accounts).deep_view() == old(accounts).deep_view(),
{
    if instruction_data.len() == 0 {
        return Err(TokenError::InvalidInstruction.into());
    }
    let discriminator = instruction_data[0];
    let data = vstd::slice::slice_subrange(instruction_data, 1, instruction_data.len());
    match discriminator {
        0 => without_return(process_initialize_mint(accounts, data, rent_sysvar)),
        1 => without_return(process_initialize_account(accounts, rent_sysvar)),
        3 => {
            if data.len() < 8 {
                return Err(TokenError::InvalidInstruction.into());
            }
            let amount = read_u64(data);
            without_return(process_transfer(accounts, amount, None))
        },
        7 => without_return(process_mint_to(accounts, data)),
        8 => without_return(process_burn(accounts, data)),
        9 => without_return(process_close_account(accounts)),
        12 => without_return(process_transfer_checked(accounts, data)),
        15 => without_return(process_burn_checked(accounts, data)),
        16 => without_return(process_initialize_account2(accounts, data, rent_sysvar)),
        18 => without_return(process_initialize_account3(accounts, data, rent_sysvar)),
        20 => without_return(process_initialize_mint2(accounts, data, rent_sysvar)),
        d => inner_process_remaining_instruction(accounts, data, d, rent_sysvar),
    }
}

/// Processes one of the less frequent instructions: `d` is the discriminator
/// and `instruction_data` the data after it.
pub fn inner_process_remaining_instruction(
    accounts: &mut Vec<AccountInfo>,
    instruction_data: &[u8],
    discriminator: u8,
    rent_sysvar: &Result<Vec<u8>, ProgramError>,
) -> (r: Result<Option<Vec<u8>>, ProgramError>)
    requires
        discriminated_admissible(
            old(accounts).deep_view(),
            discriminator,
            instruction_data@,
            rent_sysvar_view(rent_sysvar),
        ),
    ensures
        instruction_outcome(r, final(accounts).deep_view()) == remaining_instruction_result(
            old(accounts).deep_view(),
            instruction_data@,
            discriminator,
            rent_sysvar_view(rent_sysvar),
        ),
        r is Err ==> final(accounts).deep_view() == old(accounts).deep_view(),
{
    match discriminator {
        2 => without_return(process_initialize_multisig(accounts, instruction_data, rent_sysvar)),
        4 => without_return(process_approve(accounts, instruction_data)),
        5 => without_return(process_revoke(accounts, instruction_data)),
        6 => {
            let args = SetAuthority::try_from_bytes(instruction_data)?;
            let new_authority: Option<&Pubkey> = match &args.new_authority {
                Some(k) => Some(k),
                None => None,
            };
            without_return(process_set_authority(accounts, args.authority_type, new_authority))
        },
        10 => without_return(process_freeze_account(accounts)),
        11 => without_return(process_thaw_account(accounts)),
        13 => without_return(process_approve_checked(accounts, instruction_data)),
        14 => without_return(process_mint_to_checked(accounts, instruction_data)),
        17 => without_return(process_sync_native(accounts)),
        19 => {
            if instruction_data.len() == 0 {
                return Err(ProgramError::InvalidInstructionData);
            }
            without_return(process_initialize_multisig2(accounts, instruction_data[0], rent_sysvar))
        },
        21 => returning(process_get_account_data_size(accounts)),
        22 => without_return(process_initialize_immutable_owner(accounts)),
        23 => returning(process_amount_to_ui_amount(accounts, instruction_data)),
        24 => returning(process_ui_amount_to_amount_data(accounts, instruction_data)),
        38 => without_return(process_withdraw_excess_lamports(accounts, rent_sysvar)),
        _ => Err(TokenError::InvalidInstruction.into()),
    }
}

} // verus!
