//! Account layouts: the byte formats of token accounts, mints and multisigs.
use crate::error::ProgramError;
use vstd::bytes::*;
use vstd::prelude::*;

pub mod account;
pub mod account_state;
pub mod mint;
pub mod multisig;

verus! {

broadcast use vstd::array::group_array_axioms;

/// Type alias for fields represented as `COption`: a 4-byte tag and the value.
pub type COption<T> = ([u8; 4], T);

/// Types that are a fixed-size view over account data bytes.
///
/// The value's view is exactly the `LEN` bytes it was read from.
pub trait Transmutable: Sized + View<V = Seq<u8>> {
    /// The length of the type, in bytes.
    spec fn spec_len() -> usize;

    /// The length of the type, in bytes.
    fn len() -> (r: usize)
        ensures
            r == Self::spec_len(),
    ;

    /// Reads a value from exactly `len()` bytes.
    fn from_bytes(bytes: &[u8]) -> (r: Self)
        requires
            bytes@.len() == Self::spec_len(),
        ensures
            r@ == bytes@,
    ;

    /// The value's bytes.
    fn to_bytes(&self) -> (r: Vec<u8>)
        ensures
            r@ == self@,
    ;
}

/// Types whose bytes say whether they have been initialized.
pub trait Initializable: View<V = Seq<u8>> {
    /// What `is_initialized` answers for a value with the given bytes.
    spec fn initialized(bytes: Seq<u8>) -> Result<bool, ProgramError>;

    /// Return `true` if the object is initialized.
    fn is_initialized(&self) -> (r: Result<bool, ProgramError>)
        ensures
            r == Self::initialized(self@),
    ;
}

/// The outcome of [`load_unchecked`] on bytes of a type of length `len`.
pub open spec fn load_unchecked_result(bytes: Seq<u8>, len: usize) -> Result<Seq<u8>, ProgramError> {
    if bytes.len() != len {
        Err(ProgramError::InvalidAccountData)
    } else {
        Ok(bytes)
    }
}

/// The outcome of [`load`]: the length must match and the value must be initialized.
pub open spec fn load_result<T: Initializable + Transmutable>(bytes: Seq<u8>) -> Result<
    Seq<u8>,
    ProgramError,
> {
    if bytes.len() != T::spec_len() {
        Err(ProgramError::InvalidAccountData)
    } else {
        match T::initialized(bytes) {
            Err(e) => Err(e),
            Ok(false) => Err(ProgramError::UninitializedAccount),
            Ok(true) => Ok(bytes),
        }
    }
}

/// Return an initialized `T` from the given bytes.
pub fn load<T: Initializable + Transmutable>(bytes: &[u8]) -> (r: Result<T, ProgramError>)
    ensures
        match r {
            Ok(t) => load_result::<T>(bytes@) == Ok::<Seq<u8>, ProgramError>(t@),
            Err(e) => load_result::<T>(bytes@) == Err::<Seq<u8>, ProgramError>(e),
        },
{
    let t: T = load_unchecked(bytes)?;
    match t.is_initialized() {
        Err(e) => Err(e),
        Ok(true) => Ok(t),
        Ok(false) => Err(ProgramError::UninitializedAccount),
    }
}

/// Return a `T` from the given bytes, without checking that it is initialized.
pub fn load_unchecked<T: Transmutable>(bytes: &[u8]) -> (r: Result<T, ProgramError>)
    ensures
        match r {
            Ok(t) => load_unchecked_result(bytes@, T::spec_len()) == Ok::<Seq<u8>, ProgramError>(t@),
            Err(e) => load_unchecked_result(bytes@, T::spec_len()) == Err::<Seq<u8>, ProgramError>(e),
        },
{
    if bytes.len() != T::len() {
        return Err(ProgramError::InvalidAccountData);
    }
    Ok(T::from_bytes(bytes))
}

/// Return an initialized `T` from the given bytes, to be changed and written
/// back with [`Transmutable::to_bytes`].
pub fn load_mut<T: Initializable + Transmutable>(bytes: &[u8]) -> (r: Result<T, ProgramError>)
    ensures
        match r {
            Ok(t) => load_result::<T>(bytes@) == Ok::<Seq<u8>, ProgramError>(t@),
            Err(e) => load_result::<T>(bytes@) == Err::<Seq<u8>, ProgramError>(e),
        },
{
    load(bytes)
}

/// Return a `T` from the given bytes, without checking that it is initialized,
/// to be changed and written back with [`Transmutable::to_bytes`].
pub fn load_mut_unchecked<T: Transmutable>(bytes: &[u8]) -> (r: Result<T, ProgramError>)
    ensures
        match r {
            Ok(t) => load_unchecked_result(bytes@, T::spec_len()) == Ok::<Seq<u8>, ProgramError>(t@),
            Err(e) => load_unchecked_result(bytes@, T::spec_len()) == Err::<Seq<u8>, ProgramError>(e),
        },
{
    load_unchecked(bytes)
}

/// The value of a `COption` tag: its four bytes read as a little-endian `u32`.
pub open spec fn option_tag_value(value: Seq<u8>) -> int {
    value[0] + 256 * value[1] + 65536 * value[2] + 16777216 * value[3]
}

/// Validates a `COption` mask value: it must be 0 or 1.
pub fn validate_option(value: [u8; 4]) -> (r: Result<(), ProgramError>)
    ensures
        r is Ok <==> option_tag_value(value@) <= 1,
        r is Err ==> r == Err::<(), ProgramError>(ProgramError::InvalidAccountData),
{
    if value[1] != 0 || value[2] != 0 || value[3] != 0 || value[0] > 1 {
        Err(ProgramError::InvalidAccountData)
    } else {
        Ok(())
    }
}

// ---------------------------------------------------------------------------
// Byte-level helpers shared by the layouts.
// ---------------------------------------------------------------------------

/// The little-endian `u64` stored at `off`.
pub open spec fn u64_at(d: Seq<u8>, off: int) -> u64 {
    spec_u64_from_le_bytes(d.subrange(off, off + 8))
}

/// The 32-byte key stored at `off`.
pub open spec fn key_at(d: Seq<u8>, off: int) -> Seq<u8> {
    d.subrange(off, off + 32)
}

/// The optional key stored at `off`: present when the tag's first byte is 1.
pub open spec fn coption_key_at(d: Seq<u8>, off: int) -> Option<Seq<u8>> {
    if d[off] == 1 {
        Some(d.subrange(off + 4, off + 36))
    } else {
        None
    }
}

/// `d` with the bytes from `off` on replaced by `b`.
pub open spec fn with_bytes(d: Seq<u8>, off: int, b: Seq<u8>) -> Seq<u8> {
    d.subrange(0, off) + b + d.subrange(off + b.len(), d.len() as int)
}

/// `d` with the little-endian `v` stored at `off`.
pub open spec fn with_u64(d: Seq<u8>, off: int, v: u64) -> Seq<u8> {
    with_bytes(d, off, spec_u64_to_le_bytes(v))
}

/// `d` with the optional key at `off` set to `Some(k)`: tag byte 1, then the key.
pub open spec fn with_key_present(d: Seq<u8>, off: int, k: Seq<u8>) -> Seq<u8> {
    with_bytes(d.update(off, 1), off + 4, k)
}

/// `d` with the optional key at `off` cleared: tag byte 0, key bytes kept.
pub open spec fn with_key_cleared(d: Seq<u8>, off: int) -> Seq<u8> {
    d.update(off, 0)
}

/// Writing a `u64` at `off` keeps the length, stores it there and leaves every
/// other byte as it was.
pub proof fn lemma_with_u64(d: Seq<u8>, off: int, v: u64)
    requires
        0 <= off,
        off + 8 <= d.len(),
    ensures
        with_u64(d, off, v).len() == d.len(),
        u64_at(with_u64(d, off, v), off) == v,
        forall|i: int|
            0 <= i < d.len() && !(off <= i < off + 8) ==> #[trigger] with_u64(d, off, v)[i] == d[i],
{
    lemma_auto_spec_u64_to_from_le_bytes();
    assert(with_u64(d, off, v).subrange(off, off + 8) =~= spec_u64_to_le_bytes(v));
}

/// Writing the 32 bytes `k` at `off` keeps the length, stores them there and
/// leaves every other byte as it was.
pub proof fn lemma_with_key(d: Seq<u8>, off: int, k: Seq<u8>)
    requires
        0 <= off,
        k.len() == 32,
        off + 32 <= d.len(),
    ensures
        with_bytes(d, off, k).len() == d.len(),
        key_at(with_bytes(d, off, k), off) == k,
        forall|i: int|
            0 <= i < d.len() && !(off <= i < off + 32) ==> #[trigger] with_bytes(d, off, k)[i] == d[i],
{
    assert(key_at(with_bytes(d, off, k), off) =~= k);
}

/// Data that agree on the eight bytes at `off` store the same `u64` there.
pub proof fn lemma_u64_at_frame(d1: Seq<u8>, d2: Seq<u8>, off: int)
    requires
        0 <= off,
        off + 8 <= d1.len(),
        off + 8 <= d2.len(),
        forall|i: int| off <= i < off + 8 ==> d1[i] == d2[i],
    ensures
        u64_at(d1, off) == u64_at(d2, off),
{
    assert(d1.subrange(off, off + 8) =~= d2.subrange(off, off + 8));
}

/// Data that agree on the 32 bytes at `off` store the same key there.
pub proof fn lemma_key_at_frame(d1: Seq<u8>, d2: Seq<u8>, off: int)
    requires
        0 <= off,
        off + 32 <= d1.len(),
        off + 32 <= d2.len(),
        forall|i: int| off <= i < off + 32 ==> d1[i] == d2[i],
    ensures
        key_at(d1, off) == key_at(d2, off),
{
    assert(key_at(d1, off) =~= key_at(d2, off));
}

/// Copies `N` bytes starting at `off` into an array.
pub fn read_array<const N: usize>(bytes: &[u8], off: usize) -> (r: [u8; N])
    requires
        off + N <= bytes@.len(),
    ensures
        r@ == bytes@.subrange(off as int, off + N),
{
    let mut r: [u8; N] = vstd::array::array_fill_for_copy_types(0u8);
    let n = bytes.len();
    let mut i: usize = 0;
    while i < N
        invariant
            0 <= i <= N,
            off + N <= bytes@.len(),
            n == bytes@.len(),
            r@.len() == N,
            forall|k: int| 0 <= k < i ==> r@[k] == bytes@[off + k],
        decreases N - i,
    {
        r[i] = bytes[off + i];
        i = i + 1;
    }
    assert(r@ =~= bytes@.subrange(off as int, off + N));
    r
}

/// Appends an array's bytes to a vector.
pub fn push_array<const N: usize>(v: &mut Vec<u8>, a: &[u8; N])
    ensures
        final(v)@ == old(v)@ + a@,
{
    let mut i: usize = 0;
    while i < N
        invariant
            0 <= i <= N,
            a@.len() == N,
            v@ == old(v)@ + a@.subrange(0, i as int),
        decreases N - i,
    {
        v.push(a[i]);
        i = i + 1;
        assert(v@ =~= old(v)@ + a@.subrange(0, i as int));
    }
    assert(a@.subrange(0, N as int) =~= a@);
}

/// Reads a little-endian `u64`.
pub fn u64_from_le(b: &[u8; 8]) -> (r: u64)
    ensures
        r == spec_u64_from_le_bytes(b@),
{
    u64_from_le_bytes(b.as_slice())
}

/// Writes a little-endian `u64`.
pub fn u64_to_le(v: u64) -> (r: [u8; 8])
    ensures
        r@ == spec_u64_to_le_bytes(v),
{
    proof {
        lemma_auto_spec_u64_to_from_le_bytes();
    }
    let bytes = u64_to_le_bytes(v);
    read_array::<8>(bytes.as_slice(), 0)
}

} // verus!
