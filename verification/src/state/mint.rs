//! Mint data: the 82-byte layout and its fields.
use super::{
    coption_key_at, lemma_with_u64, push_array, read_array, u64_at, u64_from_le, u64_to_le,
    with_key_cleared, with_key_present, with_u64, COption, Initializable, Transmutable,
};
use crate::account_info::AccountInfo;
use crate::error::ProgramError;
use crate::pubkey::{pubkey_eq, ID, Pubkey};
use vstd::bytes::*;
use vstd::prelude::*;

verus! {

broadcast use vstd::array::group_array_axioms;

/// Length of a mint's data.
pub const MINT_LEN: usize = 82;

/// The mint authority, if any.
pub open spec fn mint_mint_authority(d: Seq<u8>) -> Option<Seq<u8>> {
    coption_key_at(d, 0)
}

/// The total supply.
pub open spec fn mint_supply(d: Seq<u8>) -> u64 {
    u64_at(d, 36)
}

/// The number of decimals.
pub open spec fn mint_decimals(d: Seq<u8>) -> u8 {
    d[44]
}

/// Whether the mint is initialized: byte 0 is no, 1 is yes, any other is invalid.
pub open spec fn mint_initialized(d: Seq<u8>) -> Result<bool, ProgramError> {
    if d[45] == 0 {
        Ok(false)
    } else if d[45] == 1 {
        Ok(true)
    } else {
        Err(ProgramError::InvalidAccountData)
    }
}

/// The freeze authority, if any.
pub open spec fn mint_freeze_authority(d: Seq<u8>) -> Option<Seq<u8>> {
    coption_key_at(d, 46)
}

/// The data with a new supply.
pub open spec fn mint_with_supply(d: Seq<u8>, s: u64) -> Seq<u8> {
    with_u64(d, 36, s)
}

/// The data with new decimals.
pub open spec fn mint_with_decimals(d: Seq<u8>, v: u8) -> Seq<u8> {
    d.update(44, v)
}

/// The data marked initialized.
pub open spec fn mint_with_initialized(d: Seq<u8>) -> Seq<u8> {
    d.update(45, 1)
}

/// The data with a mint authority set.
pub open spec fn mint_with_mint_authority(d: Seq<u8>, k: Seq<u8>) -> Seq<u8> {
    with_key_present(d, 0, k)
}

/// The data with the mint authority cleared.
pub open spec fn mint_without_mint_authority(d: Seq<u8>) -> Seq<u8> {
    with_key_cleared(d, 0)
}

/// The data with a freeze authority set.
pub open spec fn mint_with_freeze_authority(d: Seq<u8>, k: Seq<u8>) -> Seq<u8> {
    with_key_present(d, 46, k)
}

/// The data with the freeze authority cleared.
pub open spec fn mint_without_freeze_authority(d: Seq<u8>) -> Seq<u8> {
    with_key_cleared(d, 46)
}

/// Reading a field of a mint after setting it gives the value set.
pub proof fn mint_field_set_then_get(d: Seq<u8>, k: Seq<u8>, supply: u64, decimals: u8)
    requires
        d.len() == 82,
        k.len() == 32,
    ensures
        mint_supply(mint_with_supply(d, supply)) == supply,
        mint_decimals(mint_with_decimals(d, decimals)) == decimals,
        mint_initialized(mint_with_initialized(d)) == Ok::<bool, ProgramError>(true),
        mint_mint_authority(mint_with_mint_authority(d, k)) == Some(k),
        mint_mint_authority(mint_without_mint_authority(d)) == None::<Seq<u8>>,
        mint_freeze_authority(mint_with_freeze_authority(d, k)) == Some(k),
        mint_freeze_authority(mint_without_freeze_authority(d)) == None::<Seq<u8>>,
{
    lemma_with_u64(d, 36, supply);
    assert(mint_with_mint_authority(d, k).subrange(4, 36) =~= k);
    assert(mint_with_freeze_authority(d, k).subrange(50, 82) =~= k);
}

/// The outcome of reading a mint from an account: the data must have the mint's
/// length and the account must be owned by the token program.
pub open spec fn mint_from_account_result(a: AccountInfo) -> Result<Seq<u8>, ProgramError> {
    if a.data@.len() != 82 {
        Err(ProgramError::InvalidAccountData)
    } else if a.owner@ != ID@ {
        Err(ProgramError::InvalidAccountOwner)
    } else {
        Ok(a.data@)
    }
}

/// Internal representation of a mint's data.
pub struct Mint {
    /// Optional authority used to mint new tokens. If no mint authority is
    /// present then the mint has a fixed supply and no further tokens may be
    /// minted.
    mint_authority: COption<Pubkey>,
    /// Total supply of tokens.
    supply: [u8; 8],
    /// Number of base 10 digits to the right of the decimal place.
    decimals: u8,
    /// Is `true` if this structure has been initialized.
    is_initialized: u8,
    /// Optional authority to freeze token accounts.
    freeze_authority: COption<Pubkey>,
}

impl View for Mint {
    type V = Seq<u8>;

    /// The mint's bytes, in layout order.
    closed spec fn view(&self) -> Seq<u8> {
        self.mint_authority.0@ + self.mint_authority.1@ + self.supply@ + seq![
            self.decimals,
            self.is_initialized,
        ] + self.freeze_authority.0@ + self.freeze_authority.1@
    }
}

impl Mint {
    proof fn lemma_fields(&self)
        ensures
            self@.len() == 82,
            self@.subrange(0, 4) == self.mint_authority.0@,
            self@.subrange(4, 36) == self.mint_authority.1@,
            self@.subrange(36, 44) == self.supply@,
            self@[44] == self.decimals,
            self@[45] == self.is_initialized,
            self@.subrange(46, 50) == self.freeze_authority.0@,
            self@.subrange(50, 82) == self.freeze_authority.1@,
    {
        assert(self@.subrange(0, 4) =~= self.mint_authority.0@);
        assert(self@.subrange(4, 36) =~= self.mint_authority.1@);
        assert(self@.subrange(36, 44) =~= self.supply@);
        assert(self@.subrange(46, 50) =~= self.freeze_authority.0@);
        assert(self@.subrange(50, 82) =~= self.freeze_authority.1@);
    }

    /// The mint's data length.
    pub proof fn lemma_len(&self)
        ensures
            self@.len() == MINT_LEN,
    {
        self.lemma_fields();
    }

    /// Return a `Mint` from the given account: the data must have the mint's
    /// length and the account must be owned by the token program.
    pub fn from_account_info(account_info: &AccountInfo) -> (r: Result<Mint, ProgramError>)
        ensures
            match r {
                Ok(m) => mint_from_account_result(*account_info) == Ok::<Seq<u8>, ProgramError>(
                    m@,
                ),
                Err(e) => mint_from_account_result(*account_info) == Err::<Seq<u8>, ProgramError>(
                    e,
                ),
            },
    {
        if account_info.data_len() != MINT_LEN {
            return Err(ProgramError::InvalidAccountData);
        }
        if !pubkey_eq(account_info.owner(), &ID) {
            return Err(ProgramError::InvalidAccountOwner);
        }
        Ok(Self::from_bytes(account_info.data()))
    }

    /// Return a `Mint` from the given account, with the same checks as
    /// [`Mint::from_account_info`].
    pub fn from_account_info_unchecked(account_info: &AccountInfo) -> (r: Result<
        Mint,
        ProgramError,
    >)
        ensures
            match r {
                Ok(m) => mint_from_account_result(*account_info) == Ok::<Seq<u8>, ProgramError>(
                    m@,
                ),
                Err(e) => mint_from_account_result(*account_info) == Err::<Seq<u8>, ProgramError>(
                    e,
                ),
            },
    {
        Self::from_account_info(account_info)
    }

    /// Return a `Mint` to be changed and written back with `to_bytes`.
    pub fn from_bytes_mut(bytes: &[u8]) -> (r: Mint)
        requires
            bytes@.len() == MINT_LEN,
        ensures
            r@ == bytes@,
    {
        Self::from_bytes(bytes)
    }

    /// Sets the total supply.
    pub fn set_supply(&mut self, supply: u64)
        ensures
            final(self)@ == mint_with_supply(old(self)@, supply),
    {
        proof {
            self.lemma_fields();
        }
        self.supply = u64_to_le(supply);
        proof {
            self.lemma_fields();
            assert(self@ =~= mint_with_supply(old(self)@, supply));
        }
    }

    /// The total supply.
    pub fn supply(&self) -> (r: u64)
        ensures
            r == mint_supply(self@),
    {
        proof {
            self.lemma_fields();
        }
        u64_from_le(&self.supply)
    }

    /// The number of decimals.
    pub fn decimals(&self) -> (r: u8)
        ensures
            r == mint_decimals(self@),
    {
        proof {
            self.lemma_fields();
        }
        self.decimals
    }

    /// Sets the number of decimals.
    pub fn set_decimals(&mut self, decimals: u8)
        ensures
            final(self)@ == mint_with_decimals(old(self)@, decimals),
    {
        proof {
            self.lemma_fields();
        }
        self.decimals = decimals;
        proof {
            self.lemma_fields();
            assert(self@ =~= mint_with_decimals(old(self)@, decimals));
        }
    }

    /// Marks the mint initialized.
    pub fn set_initialized(&mut self)
        ensures
            final(self)@ == mint_with_initialized(old(self)@),
    {
        proof {
            self.lemma_fields();
        }
        self.is_initialized = 1;
        proof {
            self.lemma_fields();
            assert(self@ =~= mint_with_initialized(old(self)@));
        }
    }

    /// Clears the mint authority.
    pub fn clear_mint_authority(&mut self)
        ensures
            final(self)@ == mint_without_mint_authority(old(self)@),
    {
        proof {
            self.lemma_fields();
        }
        self.mint_authority.0[0] = 0;
        proof {
            self.lemma_fields();
            assert(self@ =~= mint_without_mint_authority(old(self)@));
        }
    }

    /// Sets the mint authority.
    pub fn set_mint_authority(&mut self, mint_authority: &Pubkey)
        ensures
            final(self)@ == mint_with_mint_authority(old(self)@, mint_authority@),
    {
        proof {
            self.lemma_fields();
        }
        self.mint_authority.0[0] = 1;
        self.mint_authority.1 = *mint_authority;
        proof {
            self.lemma_fields();
            assert(self@ =~= mint_with_mint_authority(old(self)@, mint_authority@));
        }
    }

    /// The mint authority, if any.
    pub fn mint_authority(&self) -> (r: Option<&Pubkey>)
        ensures
            match r {
                Some(k) => mint_mint_authority(self@) == Some(k@),
                None => mint_mint_authority(self@) is None,
            },
    {
        proof {
            self.lemma_fields();
        }
        if self.mint_authority.0[0] == 1 {
            Some(&self.mint_authority.1)
        } else {
            None
        }
    }

    /// Clears the freeze authority.
    pub fn clear_freeze_authority(&mut self)
        ensures
            final(self)@ == mint_without_freeze_authority(old(self)@),
    {
        proof {
            self.lemma_fields();
        }
        self.freeze_authority.0[0] = 0;
        proof {
            self.lemma_fields();
            assert(self@ =~= mint_without_freeze_authority(old(self)@));
        }
    }

    /// Sets the freeze authority.
    pub fn set_freeze_authority(&mut self, freeze_authority: &Pubkey)
        ensures
            final(self)@ == mint_with_freeze_authority(old(self)@, freeze_authority@),
    {
        proof {
            self.lemma_fields();
        }
        self.freeze_authority.0[0] = 1;
        self.freeze_authority.1 = *freeze_authority;
        proof {
            self.lemma_fields();
            assert(self@ =~= mint_with_freeze_authority(old(self)@, freeze_authority@));
        }
    }

    /// The freeze authority, if any.
    pub fn freeze_authority(&self) -> (r: Option<&Pubkey>)
        ensures
            match r {
                Some(k) => mint_freeze_authority(self@) == Some(k@),
                None => mint_freeze_authority(self@) is None,
            },
    {
        proof {
            self.lemma_fields();
        }
        if self.freeze_authority.0[0] == 1 {
            Some(&self.freeze_authority.1)
        } else {
            None
        }
    }
}

impl Transmutable for Mint {
    open spec fn spec_len() -> usize {
        82
    }

    fn len() -> (r: usize) {
        82
    }

    fn from_bytes(bytes: &[u8]) -> (r: Self) {
        let r = Mint {
            mint_authority: (read_array::<4>(bytes, 0), read_array::<32>(bytes, 4)),
            supply: read_array::<8>(bytes, 36),
            decimals: bytes[44],
            is_initialized: bytes[45],
            freeze_authority: (read_array::<4>(bytes, 46), read_array::<32>(bytes, 50)),
        };
        proof {
            r.lemma_fields();
            assert(r@ =~= bytes@);
        }
        r
    }

    fn to_bytes(&self) -> (r: Vec<u8>) {
        let mut v: Vec<u8> = Vec::new();
        push_array(&mut v, &self.mint_authority.0);
        push_array(&mut v, &self.mint_authority.1);
        push_array(&mut v, &self.supply);
        v.push(self.decimals);
        v.push(self.is_initialized);
        push_array(&mut v, &self.freeze_authority.0);
        push_array(&mut v, &self.freeze_authority.1);
        assert(v@ =~= self@);
        v
    }
}

impl Initializable for Mint {
    open spec fn initialized(bytes: Seq<u8>) -> Result<bool, ProgramError> {
        mint_initialized(bytes)
    }

    fn is_initialized(&self) -> (r: Result<bool, ProgramError>) {
        proof {
            self.lemma_fields();
        }
        match self.is_initialized {
            0 => Ok(false),
            1 => Ok(true),
            _ => Err(ProgramError::InvalidAccountData),
        }
    }
}

} // verus!
