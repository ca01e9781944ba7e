//! The rent sysvar: the balance an account needs to be exempt from rent.
//!
//! The sysvar's data is 17 bytes: the rent in lamports per byte-year (`u64`),
//! the exemption threshold in years (`f64`) and the burn percentage (`u8`).
//! The minimum balance is computed by `pinocchio`'s `Rent`, read from an
//! 8-aligned copy of these bytes.
use crate::account_info::{AccountInfo, AccountView};
use crate::error::ProgramError;
use crate::pubkey::{pubkey_eq, Pubkey};
use crate::state::{read_array, u64_at, u64_from_le};
use vstd::prelude::*;

verus! {

/// The ID of the rent sysvar (`SysvarRent111111111111111111111111111111111`).
pub const RENT_ID: Pubkey = [
    6, 167, 213, 23, 25, 44, 92, 81, 33, 140, 201, 76, 61, 74, 241, 127, 88, 218, 238, 8, 155, 161,
    253, 68, 227, 219, 217, 138, 0, 0, 0, 0,
];

/// Length of the rent sysvar's data.
pub const RENT_LEN: usize = 17;

/// Bytes an account occupies besides its data, for the rent computation.
pub const ACCOUNT_STORAGE_OVERHEAD: u64 = 128;

/// The bits of the default exemption threshold (2.0 years) as a little-endian `u64`.
pub const DEFAULT_EXEMPTION_THRESHOLD_BITS: u64 = 4611686018427387904;

/// The rent in lamports per byte-year.
pub open spec fn rent_lamports_per_byte_year(rent: Seq<u8>) -> u64 {
    u64_at(rent, 0)
}

/// Whether the exemption threshold is the default of two years.
pub open spec fn rent_has_default_threshold(rent: Seq<u8>) -> bool {
    u64_at(rent, 8) == DEFAULT_EXEMPTION_THRESHOLD_BITS
}

/// The minimum balance of an account of `data_len` bytes when the threshold is
/// the default: twice the yearly rent of its bytes and the storage overhead.
pub open spec fn default_minimum_balance(rent: Seq<u8>, data_len: usize) -> int {
    (ACCOUNT_STORAGE_OVERHEAD + data_len) * rent_lamports_per_byte_year(rent) * 2
}

/// The rent computation does not overflow for an account of `data_len` bytes.
pub open spec fn rent_computable(rent: Seq<u8>, data_len: usize) -> bool {
    rent.len() >= 17 ==> {
        &&& ACCOUNT_STORAGE_OVERHEAD + data_len <= u64::MAX
        &&& (ACCOUNT_STORAGE_OVERHEAD + data_len) * rent_lamports_per_byte_year(rent) <= u64::MAX
        &&& rent_has_default_threshold(rent) ==> default_minimum_balance(rent, data_len) <= u64::MAX
    }
}

/// The rent sysvar's fields as the three 8-byte words of `Rent`'s memory: the
/// rent per byte-year, the bits of the exemption threshold, and the burn
/// percentage in the low byte of the last word.
pub open spec fn rent_words(rent: Seq<u8>) -> Seq<u64> {
    seq![u64_at(rent, 0), u64_at(rent, 8), rent[16] as u64]
}

/// The minimum balance that `pinocchio`'s `Rent::minimum_balance` computes for
/// an account of `data_len` bytes from a `Rent` whose memory holds `words`.
pub uninterp spec fn rent_minimum_balance(words: Seq<u64>, data_len: usize) -> u64;

/// Calls `pinocchio::sysvars::rent::Rent::from_bytes` on the bytes of `words`,
/// an 8-aligned buffer of `Rent`'s size, and then `Rent::minimum_balance`.
/// Claimed of it: `from_bytes` only checks the length, which the buffer
/// meets, so the result is `Ok`; its value is the named `rent_minimum_balance`
/// of the words and the length, which with the default threshold is twice the
/// yearly rent of the account's bytes and overhead. With another threshold the
/// result goes through a floating-point product, which no clause states.
#[verifier::external_body]
fn minimum_balance(words: &[u64; 3], data_len: usize) -> (r: Result<u64, ProgramError>)
    requires
        ACCOUNT_STORAGE_OVERHEAD + data_len <= u64::MAX,
        (ACCOUNT_STORAGE_OVERHEAD + data_len) * words@[0] <= u64::MAX,
        words@[1] == DEFAULT_EXEMPTION_THRESHOLD_BITS ==> (ACCOUNT_STORAGE_OVERHEAD + data_len)
            * words@[0] * 2 <= u64::MAX,
    ensures
        r is Ok && r->Ok_0 == rent_minimum_balance(words@, data_len),
        words@[1] == DEFAULT_EXEMPTION_THRESHOLD_BITS ==> r is Ok && r->Ok_0
            == (ACCOUNT_STORAGE_OVERHEAD + data_len) * words@[0] * 2,
{
    match pinocchio::sysvars::rent::Rent::from_bytes(bytemuck::bytes_of(words)) {
        Ok(rent) => Ok(rent.minimum_balance(data_len)),
        Err(_) => Err(ProgramError::InvalidArgument),
    }
}

/// The minimum balance of an account of `data_len` bytes from the rent sysvar
/// bytes: bytes shorter than the sysvar are an invalid argument.
fn minimum_balance_from_bytes(rent_data: &[u8], data_len: usize) -> (r: Result<u64, ProgramError>)
    requires
        rent_computable(rent_data@, data_len),
    ensures
        rent_data@.len() < 17 ==> r == Err::<u64, ProgramError>(ProgramError::InvalidArgument),
        rent_data@.len() >= 17 ==> r == Ok::<u64, ProgramError>(
            rent_minimum_balance(rent_words(rent_data@), data_len),
        ),
        rent_data@.len() >= 17 && rent_has_default_threshold(rent_data@) ==> r->Ok_0
            == default_minimum_balance(rent_data@, data_len),
{
    if rent_data.len() < 17 {
        return Err(ProgramError::InvalidArgument);
    }
    let words: [u64; 3] = [
        u64_from_le(&read_array::<8>(rent_data, 0)),
        u64_from_le(&read_array::<8>(rent_data, 8)),
        rent_data[16] as u64,
    ];
    assert(words@ =~= rent_words(rent_data@));
    minimum_balance(&words, data_len)
}

/// The minimum balance read from a rent sysvar account: its key must be the
/// sysvar's.
pub open spec fn rent_account_minimum_balance(rent_info: AccountView, data_len: usize) -> Result<
    u64,
    ProgramError,
> {
    if rent_info.key != RENT_ID@ || rent_info.data.len() < 17 {
        Err(ProgramError::InvalidArgument)
    } else {
        Ok(rent_minimum_balance(rent_words(rent_info.data), data_len))
    }
}

/// The minimum balance read from the rent sysvar's value given by the runtime.
pub open spec fn rent_value_minimum_balance(
    rent_sysvar: Result<Seq<u8>, ProgramError>,
    data_len: usize,
) -> Result<u64, ProgramError> {
    match rent_sysvar {
        Err(e) => Err(e),
        Ok(bytes) => if bytes.len() < 17 {
            Err(ProgramError::InvalidArgument)
        } else {
            Ok(rent_minimum_balance(rent_words(bytes), data_len))
        },
    }
}

/// The bytes of the rent sysvar's value, or the error of reading it.
pub open spec fn rent_sysvar_view(rent_sysvar: &Result<Vec<u8>, ProgramError>) -> Result<
    Seq<u8>,
    ProgramError,
> {
    match rent_sysvar {
        Ok(v) => Ok(v@),
        Err(e) => Err(*e),
    }
}

/// The rent sysvar account's minimum balance for `data_len` bytes.
pub fn minimum_balance_from_account(rent_info: &AccountInfo, data_len: usize) -> (r: Result<
    u64,
    ProgramError,
>)
    requires
        rent_info.key@ == RENT_ID@ ==> rent_computable(rent_info.data@, data_len),
    ensures
        r == rent_account_minimum_balance(rent_info.deep_view(), data_len),
{
    if !pubkey_eq(rent_info.key(), &RENT_ID) {
        return Err(ProgramError::InvalidArgument);
    }
    minimum_balance_from_bytes(rent_info.data(), data_len)
}

/// The minimum balance for `data_len` bytes from the runtime's rent sysvar value.
pub fn minimum_balance_from_sysvar(rent_sysvar: &Result<Vec<u8>, ProgramError>, data_len: usize) -> (r: Result<
    u64,
    ProgramError,
>)
    requires
        rent_sysvar matches Ok(v) ==> rent_computable(v@, data_len),
    ensures
        r == rent_value_minimum_balance(rent_sysvar_view(rent_sysvar), data_len),
{
    match rent_sysvar {
        Ok(bytes) => minimum_balance_from_bytes(bytes.as_slice(), data_len),
        Err(e) => Err(*e),
    }
}

} // verus!

verus! {

/// The data length of the first account of the list (zero without accounts).
pub open spec fn first_data_len(accs: Seq<AccountView>) -> int {
    if accs.len() > 0 {
        accs[0].data.len() as int
    } else {
        0
    }
}

/// The rent computation for `data_len` bytes from the account at position `i`,
/// if it is there with the rent sysvar's key, does not overflow.
pub open spec fn rent_account_computable(accs: Seq<AccountView>, i: int, data_len: int) -> bool {
    0 <= i < accs.len() && accs[i].key == RENT_ID@ ==> rent_computable(
        accs[i].data,
        data_len as usize,
    )
}

/// The rent computation for `data_len` bytes from the runtime's rent value
/// does not overflow.
pub open spec fn rent_value_computable(rent: Result<Seq<u8>, ProgramError>, data_len: int) -> bool {
    rent matches Ok(v) ==> rent_computable(v, data_len as usize)
}

/// The rent computation for `data_len` bytes does not overflow, the rent
/// coming from the account at position `i` when `from_account`, else from the
/// runtime's rent value.
pub open spec fn rent_source_computable(
    accs: Seq<AccountView>,
    from_account: bool,
    i: int,
    rent: Result<Seq<u8>, ProgramError>,
    data_len: int,
) -> bool {
    if from_account {
        rent_account_computable(accs, i, data_len)
    } else {
        rent_value_computable(rent, data_len)
    }
}

} // verus!
