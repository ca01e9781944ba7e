//! Initializing a multisignature account.
use crate::account_info::{with_data, write_data, AccountInfo, AccountView};
use crate::error::{token_error, ProgramError, TokenError};
use crate::processor::outcome;
use crate::rent::{
    first_data_len, minimum_balance_from_account, minimum_balance_from_sysvar,
    rent_account_minimum_balance, rent_source_computable, rent_sysvar_view,
    rent_value_minimum_balance, RENT_ID,
};
use crate::state::multisig::{multisig_initialized, Multisig};
use crate::state::{
    load_mut_unchecked, load_unchecked_result, with_bytes, Initializable, Transmutable,
};
use vstd::prelude::*;

verus! {

/// The multisig data with the keys of the first `k` signer accounts written.
pub open spec fn with_signer_keys(d: Seq<u8>, signers: Seq<AccountView>, k: nat) -> Seq<u8>
    decreases k,
{
    if k == 0 {
        d
    } else {
        with_bytes(with_signer_keys(d, signers, (k - 1) as nat), 3 + 32 * (k - 1), signers[k - 1].key)
    }
}

/// The multisig data after initialization with `m` required signers out of the
/// given signer accounts (their number taken modulo 256, at most 11 keys
/// written).
pub open spec fn initialized_multisig(d: Seq<u8>, m: u8, signers: Seq<AccountView>) -> Seq<u8> {
    let n = (signers.len() % 256) as u8;
    let k = if signers.len() < 11 {
        signers.len()
    } else {
        11
    };
    with_signer_keys(d.update(0, m).update(1, n), signers, k).update(2, 1)
}

/// What initializing a multisig does: the multisig is `accs[0]` and, with
/// `rent_sysvar_account`, the rent sysvar `accs[1]`; the remaining accounts are
/// the signers. It must be uninitialized and rent exempt, and both the number
/// of signers and `m` must be between 1 and 11.
pub open spec fn initialize_multisig_result(
    accs: Seq<AccountView>,
    m: u8,
    rent_sysvar_account: bool,
    rent_sysvar: Result<Seq<u8>, ProgramError>,
) -> Result<Seq<AccountView>, ProgramError> {
    let fixed: int = if rent_sysvar_account {
        2
    } else {
        1
    };
    if accs.len() < fixed {
        Err(ProgramError::NotEnoughAccountKeys)
    } else {
        let ms = accs[0];
        let signers = accs.subrange(fixed, accs.len() as int);
        let reserve = if rent_sysvar_account {
            rent_account_minimum_balance(accs[1], ms.data.len() as usize)
        } else {
            rent_value_minimum_balance(rent_sysvar, ms.data.len() as usize)
        };
        let n = signers.len() % 256;
        if reserve is Err {
            Err(reserve->Err_0)
        } else if load_unchecked_result(ms.data, 355) is Err {
            Err(ProgramError::InvalidAccountData)
        } else if multisig_initialized(ms.data) is Err {
            Err(multisig_initialized(ms.data)->Err_0)
        } else if multisig_initialized(ms.data) == Ok::<bool, ProgramError>(true) {
            Err(token_error(TokenError::AlreadyInUse))
        } else if ms.lamports < reserve->Ok_0 {
            Err(token_error(TokenError::NotRentExempt))
        } else if !(1 <= n <= 11) {
            Err(token_error(TokenError::InvalidNumberOfProvidedSigners))
        } else if !(1 <= m <= 11) {
            Err(token_error(TokenError::InvalidNumberOfRequiredSigners))
        } else {
            Ok(with_data(accs, ms.key, initialized_multisig(ms.data, m, signers)))
        }
    }
}

/// Initializes a multisignature account requiring `m` of the signer accounts
/// that follow it.
pub fn process_initialize_multisig(
    accounts: &mut Vec<AccountInfo>,
    m: u8,
    rent_sysvar_account: bool,
    rent_sysvar: &Result<Vec<u8>, ProgramError>,
) -> (r: Result<(), ProgramError>)
    requires
        rent_source_computable(
            old(accounts).deep_view(),
            rent_sysvar_account,
            1,
            rent_sysvar_view(rent_sysvar),
            first_data_len(old(accounts).deep_view()),
        ),
    ensures
        outcome(r, final(accounts).deep_view()) == initialize_multisig_result(
            old(accounts).deep_view(),
            m,
            rent_sysvar_account,
            rent_sysvar_view(rent_sysvar),
        ),
        r is Err ==> final(accounts).deep_view() == old(accounts).deep_view(),
{
    let ghost accs = accounts.deep_view();
    let fixed: usize = if rent_sysvar_account {
        2
    } else {
        1
    };
    if accounts.len() < fixed {
        return Err(ProgramError::NotEnoughAccountKeys);
    }
    let data_len = accounts[0].data_len();
    let reserve = if rent_sysvar_account {
        proof {
            if accs[1].key == RENT_ID@ {
                assert(crate::rent::rent_computable(accs[1].data, accs[0].data.len() as usize));
            }
        }
        minimum_balance_from_account(&accounts[1], data_len)?
    } else {
        proof {
            if rent_sysvar is Ok {
                assert(crate::rent::rent_computable(
                    rent_sysvar->Ok_0@,
                    accs[0].data.len() as usize,
                ));
            }
        }
        minimum_balance_from_sysvar(rent_sysvar, data_len)?
    };
    let mut multisig: Multisig = match load_mut_unchecked(accounts[0].data()) {
        Ok(ms) => ms,
        Err(e) => {
            return Err(e);
        },
    };
    match multisig.is_initialized() {
        Ok(true) => {
            return Err(TokenError::AlreadyInUse.into());
        },
        Ok(false) => {},
        Err(e) => {
            return Err(e);
        },
    }
    if accounts[0].lamports() < reserve {
        return Err(TokenError::NotRentExempt.into());
    }
    let num_signers = accounts.len() - fixed;
    let n = (num_signers % 256) as u8;
    if !Multisig::is_valid_signer_index(n as usize) {
        return Err(TokenError::InvalidNumberOfProvidedSigners.into());
    }
    if !Multisig::is_valid_signer_index(m as usize) {
        return Err(TokenError::InvalidNumberOfRequiredSigners.into());
    }
    let ghost signers = accs.subrange(fixed as int, accs.len() as int);
    let ghost d = accs[0].data;
    multisig.set_m(m);
    multisig.set_n(n);
    let count = if num_signers < 11 {
        num_signers
    } else {
        11
    };
    let total = accounts.len();
    let mut i: usize = 0;
    while i < count
        invariant
            total == accounts@.len(),
            0 <= i <= count,
            count <= 11,
            count <= num_signers,
            num_signers == accounts@.len() - fixed,
            fixed <= accounts@.len(),
            accs == accounts.deep_view(),
            signers == accs.subrange(fixed as int, accs.len() as int),
            multisig@ == with_signer_keys(d.update(0, m).update(1, n), signers, i as nat),
        decreases count - i,
    {
        let key = accounts[fixed + i].key;
        assert(key@ == signers[i as int].key);
        multisig.set_signer(i, &key);
        i = i + 1;
    }
    multisig.set_initialized(true);
    let bytes = multisig.to_bytes();
    write_data(accounts, 0, &bytes);
    Ok(())
}

} // verus!
