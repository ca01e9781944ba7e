//! Converting a UI amount string to a raw token amount.
use super::amount_to_ui_amount::{trim_end, trim_end_bytes, zeros};
use super::{check_account_owner, check_account_owner_result, MAX_FORMATTED_DIGITS};
use crate::account_info::{AccountInfo, AccountView};
use crate::error::{token_error, ProgramError, TokenError};
use crate::state::mint::{mint_decimals, Mint};
use crate::state::{load, load_result, u64_to_le, Transmutable};
use vstd::bytes::spec_u64_to_le_bytes;
use vstd::prelude::*;
use vstd::string::StringSliceAdditionalSpecFns;
use vstd::utf8::valid_utf8;

verus! {

/// No byte of `s` is a decimal point.
pub open spec fn dot_free(s: Seq<u8>) -> bool {
    forall|i: int| 0 <= i < s.len() ==> s[i] != 46u8
}

/// The position of the first decimal point of `s`, or its length.
pub open spec fn first_dot(s: Seq<u8>) -> int {
    if dot_free(s) {
        s.len() as int
    } else {
        choose|i: int| 0 <= i < s.len() && s[i] == 46u8 && dot_free(s.take(i))
    }
}

/// The parts of a UI amount split at decimal points: the integer part, the
/// fractional part, and whether a second point follows.
pub open spec fn ui_parts(u: Seq<u8>) -> (Seq<u8>, Seq<u8>, bool) {
    let p = first_dot(u);
    if p == u.len() {
        (u, Seq::empty(), false)
    } else {
        let rest = u.subrange(p + 1, u.len() as int);
        let q = first_dot(rest);
        (u.take(p), rest.take(q), q < rest.len())
    }
}

/// `b` is an ASCII decimal digit.
pub open spec fn is_digit(b: u8) -> bool {
    48 <= b <= 57
}

/// The value of a string of decimal digits.
pub open spec fn digits_value(s: Seq<u8>) -> int
    decreases s.len(),
{
    if s.len() == 0 {
        0
    } else {
        digits_value(s.drop_last()) * 10 + (s.last() - 48)
    }
}

/// The string without one leading `+`.
pub open spec fn strip_plus(s: Seq<u8>) -> Seq<u8> {
    if s.len() > 0 && s[0] == 43u8 {
        s.drop_first()
    } else {
        s
    }
}

/// One or more decimal digits whose value fits in a `u64`.
pub open spec fn parse_digits(body: Seq<u8>) -> Option<u64> {
    if body.len() == 0 || exists|i: int| 0 <= i < body.len() && !is_digit(#[trigger] body[i])
        || digits_value(body) > u64::MAX {
        None
    } else {
        Some(digits_value(body) as u64)
    }
}

/// What parsing a string as a `u64` gives: an optional `+` followed by one or
/// more decimal digits whose value fits in a `u64`.
pub open spec fn parse_u64(s: Seq<u8>) -> Option<u64> {
    parse_digits(strip_plus(s))
}

/// The raw amount of a UI amount for a mint with `decimals`: the integer part,
/// the fractional part without trailing zeros and padded with zeros to
/// `decimals` digits, read as one number. Two decimal points, an empty amount,
/// more fractional digits than decimals, too many digits or a part that is no
/// number are an invalid argument.
pub open spec fn ui_amount_value(u: Seq<u8>, decimals: u8) -> Result<u64, ProgramError> {
    let (a, after, extra) = ui_parts(u);
    let t = trim_end(after, 48u8);
    if (a.len() == 0 && t.len() == 0) || extra || t.len() > decimals || a.len() + decimals > 257 {
        Err(ProgramError::InvalidArgument)
    } else {
        match parse_u64(a + t + zeros((decimals - t.len()) as nat)) {
            Some(v) => Ok(v),
            None => Err(ProgramError::InvalidArgument),
        }
    }
}

pub(crate) proof fn lemma_first_dot(s: Seq<u8>, r: int)
    requires
        0 <= r <= s.len(),
        forall|i: int| 0 <= i < r ==> s[i] != 46u8,
        r < s.len() ==> s[r] == 46u8,
    ensures
        first_dot(s) == r,
{
    if r < s.len() {
        assert(!dot_free(s));
        let i = choose|i: int| 0 <= i < s.len() && s[i] == 46u8 && dot_free(s.take(i));
        if i > r {
            assert(s.take(i)[r] == 46u8);
        }
        assert(s.take(r) =~= s.take(r));
        assert(dot_free(s.take(r)));
    }
}

proof fn lemma_digits_value_take(s: Seq<u8>, k: int)
    requires
        0 <= k < s.len(),
    ensures
        digits_value(s.take(k + 1)) == digits_value(s.take(k)) * 10 + (s[k] - 48),
{
    assert(s.take(k + 1).drop_last() =~= s.take(k));
}

proof fn lemma_digits_value_monotone(s: Seq<u8>, i: int, j: int)
    requires
        0 <= i <= j <= s.len(),
        forall|k: int| 0 <= k < s.len() ==> is_digit(#[trigger] s[k]),
    ensures
        digits_value(s.take(i)) <= digits_value(s.take(j)),
        digits_value(s.take(j)) >= 0,
    decreases j - i,
{
    if i < j {
        lemma_digits_value_monotone(s, i, j - 1);
        lemma_digits_value_take(s, j - 1);
    } else {
        lemma_digits_value_nonneg(s, j);
    }
}

proof fn lemma_digits_value_nonneg(s: Seq<u8>, j: int)
    requires
        0 <= j <= s.len(),
        forall|k: int| 0 <= k < s.len() ==> is_digit(#[trigger] s[k]),
    ensures
        digits_value(s.take(j)) >= 0,
    decreases j,
{
    if j > 0 {
        lemma_digits_value_nonneg(s, j - 1);
        lemma_digits_value_take(s, j - 1);
    }
}

/// Finds the first decimal point at or after `from`.
fn find_dot(s: &[u8], from: usize) -> (r: usize)
    requires
        from <= s@.len(),
    ensures
        from <= r <= s@.len(),
        first_dot(s@.subrange(from as int, s@.len() as int)) == r - from,
{
    let mut i = from;
    while i < s.len() && s[i] != 46u8
        invariant
            from <= i <= s@.len(),
            forall|k: int| from <= k < i ==> s@[k] != 46u8,
        decreases s@.len() - i,
    {
        i = i + 1;
    }
    proof {
        lemma_first_dot(s@.subrange(from as int, s@.len() as int), i - from);
    }
    i
}

/// Parses a string as a `u64`: an optional `+` followed by decimal digits.
pub fn parse_u64_bytes(s: &[u8]) -> (r: Option<u64>)
    ensures
        r == parse_u64(s@),
{
    let start: usize = if s.len() > 0 && s[0] == 43u8 {
        1
    } else {
        0
    };
    let ghost body = strip_plus(s@);
    assert(body =~= s@.subrange(start as int, s@.len() as int));
    if start == s.len() {
        return None;
    }
    let mut value: u64 = 0;
    let mut i = start;
    assert(body.take(0) =~= Seq::<u8>::empty());
    while i < s.len()
        invariant
            start <= i <= s@.len(),
            body == s@.subrange(start as int, s@.len() as int),
            body == strip_plus(s@),
            value == digits_value(body.take(i - start)),
            forall|k: int| 0 <= k < i - start ==> is_digit(#[trigger] body[k]),
        decreases s@.len() - i,
    {
        let b = s[i];
        proof {
            lemma_digits_value_take(body, i - start);
        }
        assert(body[i - start] == b);
        if b < 48u8 || b > 57u8 {
            assert(!is_digit(body[i - start]));
            assert(parse_u64(s@) is None);
            return None;
        }
        let d = (b - 48u8) as u64;
        if value > 1844674407370955161u64 || (value == 1844674407370955161u64 && d > 5) {
            proof {
                assert(digits_value(body.take(i - start + 1)) > u64::MAX);
                if forall|k: int| 0 <= k < body.len() ==> is_digit(#[trigger] body[k]) {
                    lemma_digits_value_monotone(body, i - start + 1, body.len() as int);
                    assert(body.take(body.len() as int) =~= body);
                    assert(digits_value(body) > u64::MAX);
                }
                assert(parse_u64(s@) is None);
            }
            return None;
        }
        value = value * 10 + d;
        i = i + 1;
    }
    assert(body.take(body.len() as int) =~= body);
    Some(value)
}

/// Converts a UI representation of a token amount to its raw amount using the
/// given decimals.
#[verifier::rlimit(50)]
pub fn try_ui_amount_into_amount(ui_amount: &str, decimals: u8) -> (r: Result<u64, ProgramError>)
    ensures
        r == ui_amount_value(ui_amount.spec_bytes(), decimals),
{
    let u = ui_amount.as_bytes();
    let ghost us = u@;
    let p = find_dot(u, 0);
    assert(us.subrange(0, us.len() as int) =~= us);
    let (amount_end, after_start, after_end, extra) = if p == u.len() {
        (p, p, p, false)
    } else {
        let q = find_dot(u, p + 1);
        if q < u.len() {
            (p, p + 1, q, true)
        } else {
            (p, p + 1, q, false)
        }
    };
    let amount_str = vstd::slice::slice_subrange(u, 0, amount_end);
    let after_decimal = trim_end_bytes(vstd::slice::slice_subrange(u, after_start, after_end), 48u8);
    proof {
        let (a, after, ex) = ui_parts(us);
        assert(amount_str@ == a);
        if p < us.len() {
            let rest = us.subrange(p + 1, us.len() as int);
            assert(rest.take(after_end - after_start) =~= us.subrange(
                after_start as int,
                after_end as int,
            ));
        } else {
            assert(us.subrange(after_start as int, after_end as int) =~= Seq::<u8>::empty());
        }
        assert(after_decimal@ == trim_end(after, 48u8));
        assert(extra == ex);
    }
    let length = amount_str.len();
    let dec = decimals as usize;
    if (length == 0 && after_decimal.len() == 0) || extra || after_decimal.len() > dec || length
        > MAX_FORMATTED_DIGITS - dec {
        return Err(ProgramError::InvalidArgument);
    }
    let mut digits: Vec<u8> = vstd::slice::slice_to_vec(amount_str);
    let mut k: usize = 0;
    while k < after_decimal.len()
        invariant
            0 <= k <= after_decimal@.len(),
            digits@ == amount_str@ + after_decimal@.take(k as int),
        decreases after_decimal@.len() - k,
    {
        digits.push(after_decimal[k]);
        k = k + 1;
        assert(digits@ =~= amount_str@ + after_decimal@.take(k as int));
    }
    assert(after_decimal@.take(k as int) =~= after_decimal@);
    let pad = dec - after_decimal.len();
    let mut z: usize = 0;
    while z < pad
        invariant
            0 <= z <= pad,
            digits@ == amount_str@ + after_decimal@ + zeros(z as nat),
        decreases pad - z,
    {
        digits.push(48u8);
        z = z + 1;
        assert(digits@ =~= amount_str@ + after_decimal@ + zeros(z as nat));
    }
    match parse_u64_bytes(digits.as_slice()) {
        Some(v) => Ok(v),
        None => Err(ProgramError::InvalidArgument),
    }
}

/// What `UiAmountToAmount` returns for the UI amount `u`: the mint is
/// `accs[0]` and must be initialized; the result is the return data, the raw
/// amount as eight little-endian bytes.
pub open spec fn ui_amount_to_amount_result(accs: Seq<AccountView>, u: Seq<u8>) -> Result<
    Seq<u8>,
    ProgramError,
> {
    if accs.len() < 1 {
        Err(ProgramError::NotEnoughAccountKeys)
    } else if check_account_owner_result(accs[0]) is Err {
        Err(ProgramError::IncorrectProgramId)
    } else if load_result::<Mint>(accs[0].data) is Err {
        Err(token_error(TokenError::InvalidMint))
    } else {
        match ui_amount_value(u, mint_decimals(accs[0].data)) {
            Ok(v) => Ok(spec_u64_to_le_bytes(v)),
            Err(e) => Err(e),
        }
    }
}

/// Converts a UI amount string to a raw amount using the mint's decimals; the
/// amount's little-endian bytes are the instruction's return data.
pub fn process_ui_amount_to_amount(accounts: &Vec<AccountInfo>, ui_amount: &str) -> (r: Result<
    Vec<u8>,
    ProgramError,
>)
    ensures
        match r {
            Ok(v) => ui_amount_to_amount_result(accounts.deep_view(), ui_amount.spec_bytes())
                == Ok::<Seq<u8>, ProgramError>(v@),
            Err(e) => ui_amount_to_amount_result(accounts.deep_view(), ui_amount.spec_bytes())
                == Err::<Seq<u8>, ProgramError>(e),
        },
{
    if accounts.len() < 1 {
        return Err(ProgramError::NotEnoughAccountKeys);
    }
    check_account_owner(&accounts[0])?;
    let mint: Mint = match load(accounts[0].data()) {
        Ok(m) => m,
        Err(_) => {
            return Err(TokenError::InvalidMint.into());
        },
    };
    let amount = try_ui_amount_into_amount(ui_amount, mint.decimals())?;
    let bytes = u64_to_le(amount);
    Ok(vstd::slice::slice_to_vec(bytes.as_slice()))
}

/// Calls `core::str::from_utf8`. Claimed of it, as its documentation says: the
/// bytes are accepted exactly when they are valid UTF-8, and the string then
/// has exactly those bytes.
#[verifier::external_body]
pub(crate) fn str_from_utf8(v: &[u8]) -> (r: Option<&str>)
    ensures
        r is Some <==> valid_utf8(v@),
        r matches Some(s) ==> s.spec_bytes() == v@,
{
    core::str::from_utf8(v).ok()
}

/// What `UiAmountToAmount` returns for its instruction data: the data must be
/// UTF-8, else the instruction is invalid.
pub open spec fn ui_amount_to_amount_data_result(accs: Seq<AccountView>, data: Seq<u8>) -> Result<
    Seq<u8>,
    ProgramError,
> {
    if !valid_utf8(data) {
        Err(token_error(TokenError::InvalidInstruction))
    } else {
        ui_amount_to_amount_result(accs, data)
    }
}

/// Reads the instruction data as a UI amount string and converts it.
pub fn process_ui_amount_to_amount_data(accounts: &Vec<AccountInfo>, instruction_data: &[u8]) -> (r:
    Result<Vec<u8>, ProgramError>)
    ensures
        match r {
            Ok(v) => ui_amount_to_amount_data_result(accounts.deep_view(), instruction_data@)
                == Ok::<Seq<u8>, ProgramError>(v@),
            Err(e) => ui_amount_to_amount_data_result(accounts.deep_view(), instruction_data@)
                == Err::<Seq<u8>, ProgramError>(e),
        },
{
    match str_from_utf8(instruction_data) {
        Some(ui_amount) => process_ui_amount_to_amount(accounts, ui_amount),
        None => Err(TokenError::InvalidInstruction.into()),
    }
}

} // verus!
