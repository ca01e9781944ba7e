//! Multisignature data: the 355-byte layout and its fields.
use super::{push_array, read_array, with_bytes, Initializable, Transmutable};
use crate::account_info::AccountInfo;
use crate::error::ProgramError;
use crate::pubkey::{pubkey_eq, ID, Pubkey};
use vstd::prelude::*;

verus! {

broadcast use vstd::array::group_array_axioms;

/// Minimum number of multisignature signers (min N)
pub const MIN_SIGNERS: usize = 1;

/// Maximum number of multisignature signers (max N)
pub const MAX_SIGNERS: usize = 11;

/// Length of a multisig's data.
pub const MULTISIG_LEN: usize = 355;

/// Number of signers required.
pub open spec fn multisig_m(d: Seq<u8>) -> u8 {
    d[0]
}

/// Number of valid signers.
pub open spec fn multisig_n(d: Seq<u8>) -> u8 {
    d[1]
}

/// Whether the multisig is initialized: byte 0 is no, 1 is yes, any other is invalid.
pub open spec fn multisig_initialized(d: Seq<u8>) -> Result<bool, ProgramError> {
    if d[2] == 0 {
        Ok(false)
    } else if d[2] == 1 {
        Ok(true)
    } else {
        Err(ProgramError::InvalidAccountData)
    }
}

/// The key of signer `i`.
pub open spec fn multisig_signer(d: Seq<u8>, i: int) -> Seq<u8> {
    d.subrange(3 + 32 * i, 35 + 32 * i)
}

/// The outcome of reading a multisig from an account: the data must have the
/// multisig's length and the account must be owned by the token program.
pub open spec fn multisig_from_account_result(a: AccountInfo) -> Result<Seq<u8>, ProgramError> {
    if a.data@.len() != 355 {
        Err(ProgramError::InvalidAccountData)
    } else if a.owner@ != ID@ {
        Err(ProgramError::InvalidAccountOwner)
    } else {
        Ok(a.data@)
    }
}

/// The first `k` keys, one after the other.
pub open spec fn keys_flat(s: Seq<[u8; 32]>, k: nat) -> Seq<u8>
    decreases k,
{
    if k == 0 {
        Seq::empty()
    } else {
        keys_flat(s, (k - 1) as nat) + s[k - 1]@
    }
}

proof fn lemma_keys_flat(s: Seq<[u8; 32]>, k: nat)
    ensures
        keys_flat(s, k).len() == 32 * k,
        forall|j: int|
            0 <= j < k ==> #[trigger] keys_flat(s, k).subrange(32 * j, 32 * j + 32) == s[j]@,
    decreases k,
{
    if k > 0 {
        lemma_keys_flat(s, (k - 1) as nat);
        let p = keys_flat(s, (k - 1) as nat);
        assert forall|j: int| 0 <= j < k implies #[trigger] keys_flat(s, k).subrange(
            32 * j,
            32 * j + 32,
        ) == s[j]@ by {
            if j < k - 1 {
                assert(keys_flat(s, k).subrange(32 * j, 32 * j + 32) =~= p.subrange(
                    32 * j,
                    32 * j + 32,
                ));
            } else {
                assert(keys_flat(s, k).subrange(32 * j, 32 * j + 32) =~= s[j]@);
            }
        }
    }
}

proof fn lemma_keys_flat_of_bytes(s: Seq<[u8; 32]>, k: nat, b: Seq<u8>)
    requires
        b.len() == 32 * k,
        forall|j: int| 0 <= j < k ==> #[trigger] s[j]@ == b.subrange(32 * j, 32 * j + 32),
    ensures
        keys_flat(s, k) == b,
    decreases k,
{
    if k > 0 {
        let b0 = b.subrange(0, 32 * (k - 1));
        assert forall|j: int| 0 <= j < k - 1 implies #[trigger] s[j]@ == b0.subrange(
            32 * j,
            32 * j + 32,
        ) by {
            assert(b0.subrange(32 * j, 32 * j + 32) =~= b.subrange(32 * j, 32 * j + 32));
        }
        lemma_keys_flat_of_bytes(s, (k - 1) as nat, b0);
        assert(s[k - 1]@ == b.subrange(32 * (k - 1), 32 * k as int));
        assert(b =~= b0 + b.subrange(32 * (k - 1), 32 * k as int));
    }
}

/// Multisignature data.
pub struct Multisig {
    /// Number of signers required.
    m: u8,
    /// Number of valid signers.
    n: u8,
    /// Is `true` if this structure has been initialized
    is_initialized: u8,
    /// Signer public keys
    signers: [Pubkey; 11],
}

impl View for Multisig {
    type V = Seq<u8>;

    /// The multisig's bytes, in layout order.
    closed spec fn view(&self) -> Seq<u8> {
        seq![self.m, self.n, self.is_initialized] + keys_flat(self.signers@, 11)
    }
}

impl Multisig {
    proof fn lemma_fields(&self)
        ensures
            self@.len() == 355,
            self@[0] == self.m,
            self@[1] == self.n,
            self@[2] == self.is_initialized,
            forall|j: int| 0 <= j < 11 ==> #[trigger] multisig_signer(self@, j) == self.signers@[j]@,
    {
        lemma_keys_flat(self.signers@, 11);
        assert forall|j: int| 0 <= j < 11 implies #[trigger] multisig_signer(self@, j)
            == self.signers@[j]@ by {
            assert(multisig_signer(self@, j) =~= keys_flat(self.signers@, 11).subrange(
                32 * j,
                32 * j + 32,
            ));
        }
    }

    /// The multisig's data length.
    pub proof fn lemma_len(&self)
        ensures
            self@.len() == MULTISIG_LEN,
    {
        self.lemma_fields();
    }

    /// Return a `Multisig` from the given account: the data must have the
    /// multisig's length and the account must be owned by the token program.
    pub fn from_account_info(account_info: &AccountInfo) -> (r: Result<Multisig, ProgramError>)
        ensures
            match r {
                Ok(m) => multisig_from_account_result(*account_info) == Ok::<
                    Seq<u8>,
                    ProgramError,
                >(m@),
                Err(e) => multisig_from_account_result(*account_info) == Err::<
                    Seq<u8>,
                    ProgramError,
                >(e),
            },
    {
        if account_info.data_len() != MULTISIG_LEN {
            return Err(ProgramError::InvalidAccountData);
        }
        if !pubkey_eq(account_info.owner(), &ID) {
            return Err(ProgramError::InvalidAccountOwner);
        }
        Ok(Self::from_bytes(account_info.data()))
    }

    /// Return a `Multisig` from the given account, with the same checks as
    /// [`Multisig::from_account_info`].
    pub fn from_account_info_unchecked(account_info: &AccountInfo) -> (r: Result<
        Multisig,
        ProgramError,
    >)
        ensures
            match r {
                Ok(m) => multisig_from_account_result(*account_info) == Ok::<
                    Seq<u8>,
                    ProgramError,
                >(m@),
                Err(e) => multisig_from_account_result(*account_info) == Err::<
                    Seq<u8>,
                    ProgramError,
                >(e),
            },
    {
        Self::from_account_info(account_info)
    }

    /// Return a `Multisig` to be changed and written back with `to_bytes`.
    pub fn from_bytes_mut(bytes: &[u8]) -> (r: Multisig)
        requires
            bytes@.len() == MULTISIG_LEN,
        ensures
            r@ == bytes@,
    {
        Self::from_bytes(bytes)
    }

    /// Checks that `index` is between [`MIN_SIGNERS`] and [`MAX_SIGNERS`].
    pub fn is_valid_signer_index(index: usize) -> (r: bool)
        ensures
            r == (MIN_SIGNERS <= index <= MAX_SIGNERS),
    {
        MIN_SIGNERS <= index && index <= MAX_SIGNERS
    }

    /// Marks the multisig initialized or not.
    pub fn set_initialized(&mut self, value: bool)
        ensures
            final(self)@ == old(self)@.update(2, if value { 1u8 } else { 0u8 }),
    {
        proof {
            self.lemma_fields();
        }
        self.is_initialized = if value {
            1
        } else {
            0
        };
        proof {
            self.lemma_fields();
            assert(self@ =~= old(self)@.update(2, if value { 1u8 } else { 0u8 }));
        }
    }

    /// Number of signers required.
    pub fn m(&self) -> (r: u8)
        ensures
            r == multisig_m(self@),
    {
        proof {
            self.lemma_fields();
        }
        self.m
    }

    /// Number of valid signers.
    pub fn n(&self) -> (r: u8)
        ensures
            r == multisig_n(self@),
    {
        proof {
            self.lemma_fields();
        }
        self.n
    }

    /// Sets the number of signers required.
    pub fn set_m(&mut self, m: u8)
        ensures
            final(self)@ == old(self)@.update(0, m),
    {
        proof {
            self.lemma_fields();
        }
        self.m = m;
        proof {
            self.lemma_fields();
            assert(self@ =~= old(self)@.update(0, m));
        }
    }

    /// Sets the number of valid signers.
    pub fn set_n(&mut self, n: u8)
        ensures
            final(self)@ == old(self)@.update(1, n),
    {
        proof {
            self.lemma_fields();
        }
        self.n = n;
        proof {
            self.lemma_fields();
            assert(self@ =~= old(self)@.update(1, n));
        }
    }

    /// The key of signer `i`.
    pub fn signer(&self, i: usize) -> (r: &Pubkey)
        requires
            i < MAX_SIGNERS,
        ensures
            r@ == multisig_signer(self@, i as int),
    {
        proof {
            self.lemma_fields();
        }
        &self.signers[i]
    }

    /// Sets the key of signer `i`.
    pub fn set_signer(&mut self, i: usize, key: &Pubkey)
        requires
            i < MAX_SIGNERS,
        ensures
            final(self)@ == with_bytes(old(self)@, 3 + 32 * i, key@),
    {
        proof {
            self.lemma_fields();
        }
        self.signers[i] = *key;
        proof {
            self.lemma_fields();
            let o = old(self)@;
            let w = with_bytes(o, 3 + 32 * i, key@);
            assert(w.len() == 355);
            assert forall|j: int| 0 <= j < 11 implies #[trigger] multisig_signer(w, j)
                == multisig_signer(self@, j) by {
                if j == i {
                    assert(multisig_signer(w, j) =~= key@);
                } else {
                    assert(multisig_signer(w, j) =~= multisig_signer(o, j));
                }
            }
            assert forall|p: int| 0 <= p < 355 implies #[trigger] w[p] == self@[p] by {
                if p >= 3 {
                    let j = (p - 3) / 32;
                    assert(0 <= j < 11);
                    assert(multisig_signer(w, j)[p - 3 - 32 * j] == w[p]);
                    assert(multisig_signer(self@, j)[p - 3 - 32 * j] == self@[p]);
                }
            }
            assert(self@ =~= w);
        }
    }
}

impl Transmutable for Multisig {
    open spec fn spec_len() -> usize {
        355
    }

    fn len() -> (r: usize) {
        355
    }

    fn from_bytes(bytes: &[u8]) -> (r: Self) {
        let mut signers: [Pubkey; 11] = vstd::array::array_fill_for_copy_types([0u8; 32]);
        let mut i: usize = 0;
        while i < 11
            invariant
                0 <= i <= 11,
                bytes@.len() == 355,
                signers@.len() == 11,
                forall|j: int|
                    0 <= j < i ==> #[trigger] signers@[j]@ == bytes@.subrange(
                        3 + 32 * j,
                        35 + 32 * j,
                    ),
            decreases 11 - i,
        {
            signers[i] = read_array::<32>(bytes, 3 + 32 * i);
            i = i + 1;
        }
        let r = Multisig { m: bytes[0], n: bytes[1], is_initialized: bytes[2], signers };
        proof {
            let b = bytes@.subrange(3, 355);
            assert forall|j: int| 0 <= j < 11 implies #[trigger] signers@[j]@ == b.subrange(
                32 * j,
                32 * j + 32,
            ) by {
                assert(b.subrange(32 * j, 32 * j + 32) =~= bytes@.subrange(3 + 32 * j, 35 + 32 * j));
            }
            lemma_keys_flat_of_bytes(signers@, 11, b);
            assert(r@ =~= bytes@);
        }
        r
    }

    fn to_bytes(&self) -> (r: Vec<u8>) {
        let mut v: Vec<u8> = Vec::new();
        v.push(self.m);
        v.push(self.n);
        v.push(self.is_initialized);
        let mut i: usize = 0;
        while i < 11
            invariant
                0 <= i <= 11,
                self.signers@.len() == 11,
                v@ == seq![self.m, self.n, self.is_initialized] + keys_flat(
                    self.signers@,
                    i as nat,
                ),
            decreases 11 - i,
        {
            push_array(&mut v, &self.signers[i]);
            i = i + 1;
            assert(v@ =~= seq![self.m, self.n, self.is_initialized] + keys_flat(
                self.signers@,
                i as nat,
            ));
        }
        v
    }
}

impl Initializable for Multisig {
    open spec fn initialized(bytes: Seq<u8>) -> Result<bool, ProgramError> {
        multisig_initialized(bytes)
    }

    fn is_initialized(&self) -> (r: Result<bool, ProgramError>) {
        proof {
            self.lemma_fields();
        }
        match self.is_initialized {
            0 => Ok(false),
            1 => Ok(true),
            _ => Err(ProgramError::InvalidAccountData),
        }
    }
}

} // verus!
