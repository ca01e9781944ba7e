//! Converting a raw token amount to its UI string.
use super::{check_account_owner, check_account_owner_result, data_u64, read_u64};
use crate::account_info::{AccountInfo, AccountView};
use crate::error::{token_error, ProgramError, TokenError};
use crate::state::mint::{mint_decimals, Mint};
use crate::state::{load, load_result, Transmutable};
use vstd::prelude::*;

verus! {

/// Maximum length of the UI amount string: the maximum number of digits in a
/// `u64` (20) and two punctuation characters.
pub const MAX_UI_AMOUNT_LENGTH: usize = 22;

/// The decimal digits of `v`, most significant first, without leading zeros
/// ("0" for zero).
pub open spec fn decimal_digits(v: nat) -> Seq<u8>
    decreases v,
{
    if v < 10 {
        seq![(48 + v) as u8]
    } else {
        decimal_digits(v / 10) + seq![(48 + v % 10) as u8]
    }
}

/// `n` ASCII zeros.
pub open spec fn zeros(n: nat) -> Seq<u8> {
    Seq::new(n, |i: int| 48u8)
}

/// `amount` written with `precision` digits after a decimal point: zero is
/// "0"; otherwise the digits are padded with leading zeros to at least
/// `precision + 1` and a point goes before the last `precision` (none when
/// `precision` is zero).
pub open spec fn format_with_precision(amount: u64, precision: u8) -> Seq<u8> {
    if amount == 0 {
        seq![48u8]
    } else if precision == 0 {
        decimal_digits(amount as nat)
    } else {
        let d = decimal_digits(amount as nat);
        let padded = if d.len() < precision + 1 {
            zeros((precision + 1 - d.len()) as nat) + d
        } else {
            d
        };
        padded.subrange(0, padded.len() - precision) + seq![46u8] + padded.subrange(
            padded.len() - precision,
            padded.len() as int,
        )
    }
}

/// Calls `pinocchio_log::logger::Logger::append_with_args` with the
/// `Precision` argument on a `Logger` of `MAX_UI_AMOUNT_LENGTH` bytes and
/// returns the bytes it holds. Claimed of it: for a nonzero amount and a
/// precision below 20 (the logger's `u64` digit buffer holds 20 digits; it
/// panics beyond) the bytes are `format_with_precision`, which never exceeds
/// the buffer there; a zero amount is written as "0".
#[verifier::external_body]
fn format_amount(amount: u64, precision: u8) -> (r: Vec<u8>)
    requires
        amount == 0 || precision < 20,
    ensures
        r@ == format_with_precision(amount, precision),
{
    let mut logger = pinocchio_log::logger::Logger::<MAX_UI_AMOUNT_LENGTH>::default();
    logger.append_with_args(amount, &[pinocchio_log::logger::Argument::Precision(precision)]);
    logger.to_vec()
}

/// `s` without its trailing bytes equal to `b`.
pub open spec fn trim_end(s: Seq<u8>, b: u8) -> Seq<u8>
    decreases s.len(),
{
    if s.len() > 0 && s.last() == b {
        trim_end(s.drop_last(), b)
    } else {
        s
    }
}

/// Removes the trailing bytes equal to `b`.
pub fn trim_end_bytes(s: &[u8], b: u8) -> (r: Vec<u8>)
    ensures
        r@ == trim_end(s@, b),
{
    let mut k = s.len();
    assert(s@.subrange(0, k as int) =~= s@);
    while k > 0 && s[k - 1] == b
        invariant
            k <= s@.len(),
            trim_end(s@.subrange(0, k as int), b) == trim_end(s@, b),
        decreases k,
    {
        assert(s@.subrange(0, k as int).drop_last() =~= s@.subrange(0, k - 1));
        k = k - 1;
    }
    let r = vstd::slice::slice_to_vec(vstd::slice::slice_subrange(s, 0, k));
    proof {
        let t = s@.subrange(0, k as int);
        assert(!(t.len() > 0 && t.last() == b));
    }
    assert(s@.subrange(0, s@.len() as int) =~= s@);
    r
}

/// The UI string of `amount` for a mint with `decimals`: the amount with its
/// decimals, and without trailing zeros and decimal point when there are
/// decimals; zero stays "0".
pub open spec fn ui_amount(amount: u64, decimals: u8) -> Seq<u8> {
    let s = format_with_precision(amount, decimals);
    if decimals > 0 {
        let t = trim_end(trim_end(s, 48u8), 46u8);
        if t.len() == 0 {
            seq![48u8]
        } else {
            t
        }
    } else {
        s
    }
}

/// The instruction panics: the amount is formatted with 20 or more decimals.
pub open spec fn amount_to_ui_amount_panics(accs: Seq<AccountView>, data: Seq<u8>) -> bool {
    &&& data.len() == 8
    &&& accs.len() >= 1
    &&& check_account_owner_result(accs[0]) is Ok
    &&& load_result::<Mint>(accs[0].data) is Ok
    &&& data_u64(data) != 0
    &&& mint_decimals(accs[0].data) >= 20
}

/// What `AmountToUiAmount` returns: the data is the amount (exactly eight
/// bytes), the mint is `accs[0]`; the result is the return data.
pub open spec fn amount_to_ui_amount_result(accs: Seq<AccountView>, data: Seq<u8>) -> Result<
    Seq<u8>,
    ProgramError,
> {
    if data.len() != 8 {
        Err(ProgramError::InvalidInstructionData)
    } else if accs.len() < 1 {
        Err(ProgramError::NotEnoughAccountKeys)
    } else if check_account_owner_result(accs[0]) is Err {
        Err(ProgramError::IncorrectProgramId)
    } else if load_result::<Mint>(accs[0].data) is Err {
        Err(token_error(TokenError::InvalidMint))
    } else {
        Ok(ui_amount(data_u64(data), mint_decimals(accs[0].data)))
    }
}

/// Converts an amount of tokens to its UI string using the mint's decimals; the
/// string is the instruction's return data.
pub fn process_amount_to_ui_amount(accounts: &Vec<AccountInfo>, instruction_data: &[u8]) -> (r:
    Result<Vec<u8>, ProgramError>)
    requires
        !amount_to_ui_amount_panics(accounts.deep_view(), instruction_data@),
    ensures
        match r {
            Ok(v) => amount_to_ui_amount_result(accounts.deep_view(), instruction_data@) == Ok::<
                Seq<u8>,
                ProgramError,
            >(v@),
            Err(e) => amount_to_ui_amount_result(accounts.deep_view(), instruction_data@) == Err::<
                Seq<u8>,
                ProgramError,
            >(e),
        },
{
    if instruction_data.len() != 8 {
        return Err(ProgramError::InvalidInstructionData);
    }
    let amount = read_u64(instruction_data);
    if accounts.len() < 1 {
        return Err(ProgramError::NotEnoughAccountKeys);
    }
    check_account_owner(&accounts[0])?;
    let mint: Mint = match load(accounts[0].data()) {
        Ok(m) => m,
        Err(_) => {
            return Err(TokenError::InvalidMint.into());
        },
    };
    let decimals = mint.decimals();
    let s = format_amount(amount, decimals);
    if decimals > 0 {
        let zeros_trimmed = trim_end_bytes(s.as_slice(), 48u8);
        let trimmed = trim_end_bytes(zeros_trimmed.as_slice(), 46u8);
        if trimmed.len() == 0 {
            let zero: Vec<u8> = vec![48u8];
            assert(zero@ =~= seq![48u8]);
            Ok(zero)
        } else {
            Ok(trimmed)
        }
    } else {
        Ok(s)
    }
}

} // verus!
