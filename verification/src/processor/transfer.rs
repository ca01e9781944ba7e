//! Transfer of tokens between two accounts of the same mint.
use super::{
    authority_well_formed, check_account_owner, check_account_owner_result, outcome,
    remaining_accounts, validate_owner, validate_owner_result,
};
use crate::account_info::{
    with_data, with_lamports, write_data, write_lamports, AccountInfo, AccountView,
};
use crate::error::{token_error, ProgramError, TokenError};
use crate::native_mint::{is_native_mint, ID as NATIVE_MINT_ID};
use crate::pubkey::pubkey_eq;
use crate::state::account::{
    account_amount, account_delegate, account_delegated_amount, account_is_frozen, account_mint,
    account_owner, account_with_amount, account_with_delegated_amount, account_without_delegate,
    Account,
};
use crate::state::mint::{mint_decimals, Mint};
use crate::state::{load, load_mut, load_result, Transmutable};
use vstd::prelude::*;

verus! {

/// The source account's data after the authority check: a delegate spending
/// from a different account has its allowance reduced, and cleared at zero.
pub open spec fn transfer_source_after_authority(
    src: Seq<u8>,
    by_delegate: bool,
    self_transfer: bool,
    amount: u64,
) -> Seq<u8> {
    if by_delegate && !self_transfer {
        let left = (account_delegated_amount(src) - amount) as u64;
        if left == 0 {
            account_without_delegate(account_with_delegated_amount(src, left))
        } else {
            account_with_delegated_amount(src, left)
        }
    } else {
        src
    }
}

/// What a transfer of `amount` does to the accounts `accs`: the source is
/// `accs[0]`; with `expected_decimals` the mint is `accs[1]` and the
/// destination and authority follow, otherwise the destination is `accs[1]`
/// and the authority `accs[2]`; the remaining accounts are multisig signers.
/// A source or destination that is no initialized token account is invalid
/// account data.
pub open spec fn transfer_result(
    accs: Seq<AccountView>,
    amount: u64,
    expected_decimals: Option<u8>,
) -> Result<Seq<AccountView>, ProgramError> {
    let fixed: int = if expected_decimals is Some {
        4
    } else {
        3
    };
    let dst_i: int = if expected_decimals is Some {
        2
    } else {
        1
    };
    let auth_i: int = fixed - 1;
    if accs.len() < fixed {
        Err(ProgramError::NotEnoughAccountKeys)
    } else {
        let src = accs[0];
        let dst = accs[dst_i];
        let auth = accs[auth_i];
        let signers = accs.subrange(fixed, accs.len() as int);
        let s = src.data;
        let d = dst.data;
        if load_result::<Account>(s) is Err {
            Err(ProgramError::InvalidAccountData)
        } else if load_result::<Account>(d) is Err {
            Err(ProgramError::InvalidAccountData)
        } else if account_is_frozen(s) == Ok::<bool, ProgramError>(true) || account_is_frozen(d)
            == Ok::<bool, ProgramError>(true) {
            Err(token_error(TokenError::AccountFrozen))
        } else if account_amount(s) < amount {
            Err(token_error(TokenError::InsufficientFunds))
        } else if account_mint(s) != account_mint(d) {
            Err(token_error(TokenError::MintMismatch))
        } else if expected_decimals is Some && accs[1].key != account_mint(s) {
            Err(token_error(TokenError::MintMismatch))
        } else if expected_decimals is Some && load_result::<Mint>(accs[1].data) is Err {
            Err(load_result::<Mint>(accs[1].data)->Err_0)
        } else if expected_decimals is Some && expected_decimals->0 != mint_decimals(
            accs[1].data,
        ) {
            Err(token_error(TokenError::MintDecimalsMismatch))
        } else {
            let self_transfer = src.key == dst.key;
            let by_delegate = account_delegate(s) == Some(auth.key);
            let expected_owner = if by_delegate {
                auth.key
            } else {
                account_owner(s)
            };
            if validate_owner_result(expected_owner, auth, signers) is Err {
                Err(validate_owner_result(expected_owner, auth, signers)->Err_0)
            } else if by_delegate && account_delegated_amount(s) < amount {
                Err(token_error(TokenError::InsufficientFunds))
            } else {
                let s1 = transfer_source_after_authority(s, by_delegate, self_transfer, amount);
                if self_transfer || amount == 0 {
                    if check_account_owner_result(src) is Err {
                        Err(ProgramError::IncorrectProgramId)
                    } else if check_account_owner_result(dst) is Err {
                        Err(ProgramError::IncorrectProgramId)
                    } else {
                        Ok(with_data(accs, src.key, s1))
                    }
                } else if account_amount(d) + amount > u64::MAX {
                    Err(token_error(TokenError::Overflow))
                } else {
                    let s2 = account_with_amount(s1, (account_amount(s) - amount) as u64);
                    let d2 = account_with_amount(d, (account_amount(d) + amount) as u64);
                    let moved = with_data(with_data(accs, src.key, s2), dst.key, d2);
                    if account_mint(s) == NATIVE_MINT_ID@ {
                        if src.lamports < amount {
                            Err(token_error(TokenError::Overflow))
                        } else if dst.lamports + amount > u64::MAX {
                            Err(token_error(TokenError::Overflow))
                        } else {
                            Ok(
                                with_lamports(
                                    with_lamports(moved, src.key, (src.lamports - amount) as u64),
                                    dst.key,
                                    (dst.lamports + amount) as u64,
                                ),
                            )
                        }
                    } else {
                        Ok(moved)
                    }
                }
            }
        }
    }
}

/// Transfers `amount` tokens from the source account to the destination
/// account, either directly by the owner or by the source's delegate; for the
/// native mint the lamports move too. `expected_decimals` asks for the mint
/// account and checks its decimals.
pub fn process_transfer(
    accounts: &mut Vec<AccountInfo>,
    amount: u64,
    expected_decimals: Option<u8>,
) -> (r: Result<(), ProgramError>)
    requires
        authority_well_formed(old(accounts).deep_view(), if expected_decimals is Some { 3 } else { 2 }),
    ensures
        outcome(r, final(accounts).deep_view()) == transfer_result(
            old(accounts).deep_view(),
            amount,
            expected_decimals,
        ),
        r is Err ==> final(accounts).deep_view() == old(accounts).deep_view(),
{
    let ghost accs = accounts.deep_view();
    let fixed: usize = if expected_decimals.is_some() {
        4
    } else {
        3
    };
    if accounts.len() < fixed {
        return Err(ProgramError::NotEnoughAccountKeys);
    }
    let dst_i: usize = fixed - 2;
    let auth_i: usize = fixed - 1;
    let mut source_account: Account = match load_mut(accounts[0].data()) {
        Ok(a) => a,
        Err(_) => {
            return Err(ProgramError::InvalidAccountData);
        },
    };
    let destination_account: Account = match load_mut(accounts[dst_i].data()) {
        Ok(a) => a,
        Err(_) => {
            return Err(ProgramError::InvalidAccountData);
        },
    };
    let src_frozen = match source_account.is_frozen() {
        Ok(f) => f,
        Err(e) => {
            return Err(e);
        },
    };
    let dst_frozen = match destination_account.is_frozen() {
        Ok(f) => f,
        Err(e) => {
            return Err(e);
        },
    };
    if src_frozen || dst_frozen {
        return Err(TokenError::AccountFrozen.into());
    }
    let source_amount = source_account.amount();
    if source_amount < amount {
        return Err(TokenError::InsufficientFunds.into());
    }
    let remaining_amount = source_amount - amount;
    if !pubkey_eq(source_account.mint(), destination_account.mint()) {
        return Err(TokenError::MintMismatch.into());
    }
    if let Some(decimals) = expected_decimals {
        if !pubkey_eq(accounts[1].key(), source_account.mint()) {
            return Err(TokenError::MintMismatch.into());
        }
        let mint: Mint = match load(accounts[1].data()) {
            Ok(m) => m,
            Err(e) => {
                return Err(e);
            },
        };
        if decimals != mint.decimals() {
            return Err(TokenError::MintDecimalsMismatch.into());
        }
    }
    let native = is_native_mint(source_account.mint());
    let self_transfer = pubkey_eq(accounts[0].key(), accounts[dst_i].key());
    let signers = remaining_accounts(accounts, fixed);
    let by_delegate = match source_account.delegate() {
        Some(d) => pubkey_eq(d, accounts[auth_i].key()),
        None => false,
    };
    if by_delegate {
        let authority_key = accounts[auth_i].key;
        proof {
            assert(accs[auth_i as int] == accounts[auth_i as int].deep_view());
        }
        validate_owner(&authority_key, &accounts[auth_i], signers)?;
        let delegated = source_account.delegated_amount();
        if delegated < amount {
            return Err(TokenError::InsufficientFunds.into());
        }
        if !self_transfer {
            let left = delegated - amount;
            source_account.set_delegated_amount(left);
            if left == 0 {
                source_account.clear_delegate();
            }
        }
    } else {
        let owner_key = *source_account.owner();
        validate_owner(&owner_key, &accounts[auth_i], signers)?;
    }
    if self_transfer || amount == 0 {
        check_account_owner(&accounts[0])?;
        check_account_owner(&accounts[dst_i])?;
        let bytes = source_account.to_bytes();
        write_data(accounts, 0, &bytes);
        return Ok(());
    }
    let destination_amount = destination_account.amount();
    if destination_amount > u64::MAX - amount {
        return Err(TokenError::Overflow.into());
    }
    let mut destination_account = destination_account;
    source_account.set_amount(remaining_amount);
    destination_account.set_amount(destination_amount + amount);
    let source_lamports = accounts[0].lamports();
    let destination_lamports = accounts[dst_i].lamports();
    if native {
        if source_lamports < amount {
            return Err(TokenError::Overflow.into());
        }
        if destination_lamports > u64::MAX - amount {
            return Err(TokenError::Overflow.into());
        }
    }
    let source_bytes = source_account.to_bytes();
    let destination_bytes = destination_account.to_bytes();
    let ghost sd = accs[0].data;
    let ghost dd = accs[dst_i as int].data;
    let ghost by_del = account_delegate(sd) == Some(accs[auth_i as int].key);
    let ghost s1 = transfer_source_after_authority(sd, by_del, false, amount);
    assert(source_bytes@ == account_with_amount(s1, (account_amount(sd) - amount) as u64));
    assert(destination_bytes@ == account_with_amount(dd, (account_amount(dd) + amount) as u64));
    write_data(accounts, 0, &source_bytes);
    assert(accounts.deep_view() == with_data(accs, accs[0].key, source_bytes@));
    assert(accounts.deep_view()[dst_i as int].key == accs[dst_i as int].key);
    assert(accounts@[dst_i as int].key@ == accs[dst_i as int].key);
    write_data(accounts, dst_i, &destination_bytes);
    assert(accounts.deep_view() == with_data(
        with_data(accs, accs[0].key, source_bytes@),
        accs[dst_i as int].key,
        destination_bytes@,
    ));
    let ghost moved = accounts.deep_view();
    if native {
        assert(accounts.deep_view()[0].key == accs[0].key);
        write_lamports(accounts, 0, source_lamports - amount);
        assert(accounts.deep_view()[dst_i as int].key == accs[dst_i as int].key);
        write_lamports(accounts, dst_i, destination_lamports + amount);
        assert(accounts.deep_view() == with_lamports(
            with_lamports(moved, accs[0].key, (source_lamports - amount) as u64),
            accs[dst_i as int].key,
            (destination_lamports + amount) as u64,
        ));
    }
    assert(self_transfer == (accs[0].key == accs[dst_i as int].key));
    assert(!self_transfer);
    assert(transfer_result(accs, amount, expected_decimals) == Ok::<Seq<AccountView>, ProgramError>(
        accounts.deep_view(),
    ));
    Ok(())
}

} // verus!
