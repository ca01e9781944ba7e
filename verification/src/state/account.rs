//! Token account data: the 165-byte layout and its fields.
use super::account_state::AccountState;
use super::{
    coption_key_at, key_at, lemma_with_u64, push_array, read_array, u64_at, u64_from_le, u64_to_le,
    with_bytes, with_key_cleared, with_key_present, with_u64, COption, Initializable, Transmutable,
};
use crate::error::ProgramError;
use crate::pubkey::{pubkey_eq, Pubkey};
use vstd::bytes::*;
use vstd::prelude::*;

verus! {

broadcast use vstd::array::group_array_axioms;

/// Incinerator address (`1nc1nerator11111111111111111111111111111111`).
pub const INCINERATOR_ID: Pubkey = [
    0, 51, 144, 114, 141, 52, 17, 96, 121, 189, 201, 17, 191, 255, 0, 219, 212, 77, 46, 205, 204,
    247, 156, 166, 225, 0, 56, 225, 0, 0, 0, 0,
];

/// System program id (`11111111111111111111111111111111`).
pub const SYSTEM_PROGRAM_ID: Pubkey = [
    0, 0, 0, 0, 0, 0, 0, 0, 0, 0, 0, 0, 0, 0, 0, 0, 0, 0, 0, 0, 0, 0, 0, 0, 0, 0, 0, 0, 0, 0, 0, 0,
];

/// Length of a token account's data.
pub const ACCOUNT_LEN: usize = 165;

// Offsets of the fields in the account layout.
pub const MINT_OFFSET: usize = 0;
pub const OWNER_OFFSET: usize = 32;
pub const AMOUNT_OFFSET: usize = 64;
pub const DELEGATE_OFFSET: usize = 72;
pub const STATE_OFFSET: usize = 108;
pub const IS_NATIVE_OFFSET: usize = 109;
pub const NATIVE_AMOUNT_OFFSET: usize = 113;
pub const DELEGATED_AMOUNT_OFFSET: usize = 121;
pub const CLOSE_AUTHORITY_OFFSET: usize = 129;

// ---------------------------------------------------------------------------
// The fields of account data, read from its bytes.
// ---------------------------------------------------------------------------

/// The mint associated with the account.
pub open spec fn account_mint(d: Seq<u8>) -> Seq<u8> {
    key_at(d, 0)
}

/// The owner of the account.
pub open spec fn account_owner(d: Seq<u8>) -> Seq<u8> {
    key_at(d, 32)
}

/// The amount of tokens the account holds.
pub open spec fn account_amount(d: Seq<u8>) -> u64 {
    u64_at(d, 64)
}

/// The account's delegate, if any.
pub open spec fn account_delegate(d: Seq<u8>) -> Option<Seq<u8>> {
    coption_key_at(d, 72)
}

/// The account's state, if its byte names one.
pub open spec fn account_state(d: Seq<u8>) -> Result<AccountState, ProgramError> {
    AccountState::spec_from_u8(d[108])
}

/// Whether the account holds the native token (wrapped SOL).
pub open spec fn account_is_native(d: Seq<u8>) -> bool {
    d[109] == 1
}

/// The rent-exempt reserve of a native account.
pub open spec fn account_native_amount(d: Seq<u8>) -> Option<u64> {
    if account_is_native(d) {
        Some(u64_at(d, 113))
    } else {
        None
    }
}

/// The amount delegated.
pub open spec fn account_delegated_amount(d: Seq<u8>) -> u64 {
    u64_at(d, 121)
}

/// The account's close authority, if any.
pub open spec fn account_close_authority(d: Seq<u8>) -> Option<Seq<u8>> {
    coption_key_at(d, 129)
}

/// Whether the account is frozen (an error when the state byte is invalid).
pub open spec fn account_is_frozen(d: Seq<u8>) -> Result<bool, ProgramError> {
    match account_state(d) {
        Ok(s) => Ok(s == AccountState::Frozen),
        Err(e) => Err(e),
    }
}

/// Whether the account is initialized (an error when the state byte is invalid).
pub open spec fn account_initialized(d: Seq<u8>) -> Result<bool, ProgramError> {
    match account_state(d) {
        Ok(s) => Ok(s != AccountState::Uninitialized),
        Err(e) => Err(e),
    }
}

/// Whether the account's owner is the system program or the incinerator.
pub open spec fn account_owned_by_system_or_incinerator(d: Seq<u8>) -> bool {
    account_owner(d) == SYSTEM_PROGRAM_ID@ || account_owner(d) == INCINERATOR_ID@
}

// ---------------------------------------------------------------------------
// Account data with one field changed.
// ---------------------------------------------------------------------------

/// The data with a new mint.
pub open spec fn account_with_mint(d: Seq<u8>, k: Seq<u8>) -> Seq<u8> {
    with_bytes(d, 0, k)
}

/// The data with a new owner.
pub open spec fn account_with_owner(d: Seq<u8>, k: Seq<u8>) -> Seq<u8> {
    with_bytes(d, 32, k)
}

/// The data with a new amount.
pub open spec fn account_with_amount(d: Seq<u8>, a: u64) -> Seq<u8> {
    with_u64(d, 64, a)
}

/// The data with a delegate set.
pub open spec fn account_with_delegate(d: Seq<u8>, k: Seq<u8>) -> Seq<u8> {
    with_key_present(d, 72, k)
}

/// The data with the delegate cleared.
pub open spec fn account_without_delegate(d: Seq<u8>) -> Seq<u8> {
    with_key_cleared(d, 72)
}

/// The data with a new state.
pub open spec fn account_with_state(d: Seq<u8>, s: AccountState) -> Seq<u8> {
    d.update(108, s.spec_to_u8())
}

/// The data with the native flag set or cleared.
pub open spec fn account_with_native(d: Seq<u8>, v: bool) -> Seq<u8> {
    d.update(109, if v { 1u8 } else { 0u8 })
}

/// The data with a new native amount.
pub open spec fn account_with_native_amount(d: Seq<u8>, a: u64) -> Seq<u8> {
    with_u64(d, 113, a)
}

/// The data with a new delegated amount.
pub open spec fn account_with_delegated_amount(d: Seq<u8>, a: u64) -> Seq<u8> {
    with_u64(d, 121, a)
}

/// The data with a close authority set.
pub open spec fn account_with_close_authority(d: Seq<u8>, k: Seq<u8>) -> Seq<u8> {
    with_key_present(d, 129, k)
}

/// The data with the close authority cleared.
pub open spec fn account_without_close_authority(d: Seq<u8>) -> Seq<u8> {
    with_key_cleared(d, 129)
}

/// Reading a field of a token account after setting it gives the value set.
pub proof fn account_field_set_then_get(d: Seq<u8>, k: Seq<u8>, a: u64, st: AccountState, v: bool)
    requires
        d.len() == 165,
        k.len() == 32,
    ensures
        account_mint(account_with_mint(d, k)) == k,
        account_owner(account_with_owner(d, k)) == k,
        account_amount(account_with_amount(d, a)) == a,
        account_delegate(account_with_delegate(d, k)) == Some(k),
        account_delegate(account_without_delegate(d)) == None::<Seq<u8>>,
        account_state(account_with_state(d, st)) == Ok::<AccountState, ProgramError>(st),
        account_is_native(account_with_native(d, v)) == v,
        account_native_amount(account_with_native_amount(account_with_native(d, true), a)) == Some(
            a,
        ),
        account_delegated_amount(account_with_delegated_amount(d, a)) == a,
        account_close_authority(account_with_close_authority(d, k)) == Some(k),
        account_close_authority(account_without_close_authority(d)) == None::<Seq<u8>>,
{
    assert(key_at(account_with_mint(d, k), 0) =~= k);
    assert(key_at(account_with_owner(d, k), 32) =~= k);
    lemma_with_u64(d, 64, a);
    assert(account_with_delegate(d, k).subrange(76, 108) =~= k);
    lemma_with_u64(d, 121, a);
    assert(account_with_close_authority(d, k).subrange(133, 165) =~= k);
    let n = account_with_native(d, true);
    lemma_with_u64(n, 113, a);
}

/// Internal representation of a token account's data.
pub struct Account {
    /// The mint associated with this account
    mint: Pubkey,
    /// The owner of this account.
    owner: Pubkey,
    /// The amount of tokens this account holds.
    amount: [u8; 8],
    /// If `delegate` is `Some` then `delegated_amount` represents
    /// the amount authorized by the delegate.
    delegate: COption<Pubkey>,
    /// The account's state.
    state: u8,
    /// Indicates whether this account represents a native token or not.
    is_native: [u8; 4],
    /// If `is_native.is_some`, this is a native token, and the value logs the
    /// rent-exempt reserve.
    native_amount: [u8; 8],
    /// The amount delegated.
    delegated_amount: [u8; 8],
    /// Optional authority to close the account.
    close_authority: COption<Pubkey>,
}

impl View for Account {
    type V = Seq<u8>;

    /// The account's bytes, in layout order.
    closed spec fn view(&self) -> Seq<u8> {
        self.mint@ + self.owner@ + self.amount@ + self.delegate.0@ + self.delegate.1@ + seq![
            self.state,
        ] + self.is_native@ + self.native_amount@ + self.delegated_amount@
            + self.close_authority.0@ + self.close_authority.1@
    }
}

impl Account {
    /// Where each field sits in the view.
    proof fn lemma_fields(&self)
        ensures
            self@.len() == 165,
            self@.subrange(0, 32) == self.mint@,
            self@.subrange(32, 64) == self.owner@,
            self@.subrange(64, 72) == self.amount@,
            self@.subrange(72, 76) == self.delegate.0@,
            self@.subrange(76, 108) == self.delegate.1@,
            self@[108] == self.state,
            self@.subrange(109, 113) == self.is_native@,
            self@.subrange(113, 121) == self.native_amount@,
            self@.subrange(121, 129) == self.delegated_amount@,
            self@.subrange(129, 133) == self.close_authority.0@,
            self@.subrange(133, 165) == self.close_authority.1@,
    {
        assert(self@.subrange(0, 32) =~= self.mint@);
        assert(self@.subrange(32, 64) =~= self.owner@);
        assert(self@.subrange(64, 72) =~= self.amount@);
        assert(self@.subrange(72, 76) =~= self.delegate.0@);
        assert(self@.subrange(76, 108) =~= self.delegate.1@);
        assert(self@.subrange(109, 113) =~= self.is_native@);
        assert(self@.subrange(113, 121) =~= self.native_amount@);
        assert(self@.subrange(121, 129) =~= self.delegated_amount@);
        assert(self@.subrange(129, 133) =~= self.close_authority.0@);
        assert(self@.subrange(133, 165) =~= self.close_authority.1@);
    }

    /// The account's data length.
    pub proof fn lemma_len(&self)
        ensures
            self@.len() == ACCOUNT_LEN,
    {
        self.lemma_fields();
    }

    /// The mint associated with this account.
    pub fn mint(&self) -> (r: &Pubkey)
        ensures
            r@ == account_mint(self@),
    {
        proof {
            self.lemma_fields();
        }
        &self.mint
    }

    /// The owner of this account.
    pub fn owner(&self) -> (r: &Pubkey)
        ensures
            r@ == account_owner(self@),
    {
        proof {
            self.lemma_fields();
        }
        &self.owner
    }

    /// Sets the mint associated with this account.
    pub fn set_mint(&mut self, mint: &Pubkey)
        ensures
            final(self)@ == account_with_mint(old(self)@, mint@),
    {
        proof {
            self.lemma_fields();
        }
        self.mint = *mint;
        proof {
            self.lemma_fields();
            assert(self@ =~= account_with_mint(old(self)@, mint@));
        }
    }

    /// Sets the owner of this account.
    pub fn set_owner(&mut self, owner: &Pubkey)
        ensures
            final(self)@ == account_with_owner(old(self)@, owner@),
    {
        proof {
            self.lemma_fields();
        }
        self.owner = *owner;
        proof {
            self.lemma_fields();
            assert(self@ =~= account_with_owner(old(self)@, owner@));
        }
    }

    /// Sets the account's state.
    pub fn set_account_state(&mut self, state: AccountState)
        ensures
            final(self)@ == account_with_state(old(self)@, state),
    {
        proof {
            self.lemma_fields();
        }
        self.state = state.to_u8();
        proof {
            self.lemma_fields();
            assert(self@ =~= account_with_state(old(self)@, state));
        }
    }

    /// The account's state; invalid account data when the state byte names none.
    pub fn account_state(&self) -> (r: Result<AccountState, ProgramError>)
        ensures
            r == account_state(self@),
    {
        proof {
            self.lemma_fields();
        }
        AccountState::try_from(self.state)
    }

    /// Sets the amount of tokens.
    pub fn set_amount(&mut self, amount: u64)
        ensures
            final(self)@ == account_with_amount(old(self)@, amount),
    {
        proof {
            self.lemma_fields();
        }
        self.amount = u64_to_le(amount);
        proof {
            self.lemma_fields();
            assert(self@ =~= account_with_amount(old(self)@, amount));
        }
    }

    /// The amount of tokens the account holds.
    pub fn amount(&self) -> (r: u64)
        ensures
            r == account_amount(self@),
    {
        proof {
            self.lemma_fields();
        }
        u64_from_le(&self.amount)
    }

    /// Clears the delegate.
    pub fn clear_delegate(&mut self)
        ensures
            final(self)@ == account_without_delegate(old(self)@),
    {
        proof {
            self.lemma_fields();
        }
        self.delegate.0[0] = 0;
        proof {
            self.lemma_fields();
            assert(self@ =~= account_without_delegate(old(self)@));
        }
    }

    /// Sets the delegate.
    pub fn set_delegate(&mut self, delegate: &Pubkey)
        ensures
            final(self)@ == account_with_delegate(old(self)@, delegate@),
    {
        proof {
            self.lemma_fields();
        }
        self.delegate.0[0] = 1;
        self.delegate.1 = *delegate;
        proof {
            self.lemma_fields();
            assert(self@ =~= account_with_delegate(old(self)@, delegate@));
        }
    }

    /// The delegate, if any.
    pub fn delegate(&self) -> (r: Option<&Pubkey>)
        ensures
            match r {
                Some(k) => account_delegate(self@) == Some(k@),
                None => account_delegate(self@) is None,
            },
    {
        proof {
            self.lemma_fields();
        }
        if self.delegate.0[0] == 1 {
            Some(&self.delegate.1)
        } else {
            None
        }
    }

    /// Sets or clears the native flag.
    pub fn set_native(&mut self, value: bool)
        ensures
            final(self)@ == account_with_native(old(self)@, value),
    {
        proof {
            self.lemma_fields();
        }
        self.is_native[0] = if value {
            1
        } else {
            0
        };
        proof {
            self.lemma_fields();
            assert(self@ =~= account_with_native(old(self)@, value));
        }
    }

    /// Whether this account holds the native token.
    pub fn is_native(&self) -> (r: bool)
        ensures
            r == account_is_native(self@),
    {
        proof {
            self.lemma_fields();
        }
        self.is_native[0] == 1
    }

    /// Sets the native amount (the rent-exempt reserve).
    pub fn set_native_amount(&mut self, amount: u64)
        ensures
            final(self)@ == account_with_native_amount(old(self)@, amount),
    {
        proof {
            self.lemma_fields();
        }
        self.native_amount = u64_to_le(amount);
        proof {
            self.lemma_fields();
            assert(self@ =~= account_with_native_amount(old(self)@, amount));
        }
    }

    /// The rent-exempt reserve, for a native account.
    pub fn native_amount(&self) -> (r: Option<u64>)
        ensures
            r == account_native_amount(self@),
    {
        proof {
            self.lemma_fields();
        }
        if self.is_native() {
            Some(u64_from_le(&self.native_amount))
        } else {
            None
        }
    }

    /// Sets the delegated amount.
    pub fn set_delegated_amount(&mut self, amount: u64)
        ensures
            final(self)@ == account_with_delegated_amount(old(self)@, amount),
    {
        proof {
            self.lemma_fields();
        }
        self.delegated_amount = u64_to_le(amount);
        proof {
            self.lemma_fields();
            assert(self@ =~= account_with_delegated_amount(old(self)@, amount));
        }
    }

    /// The amount delegated.
    pub fn delegated_amount(&self) -> (r: u64)
        ensures
            r == account_delegated_amount(self@),
    {
        proof {
            self.lemma_fields();
        }
        u64_from_le(&self.delegated_amount)
    }

    /// Clears the close authority.
    pub fn clear_close_authority(&mut self)
        ensures
            final(self)@ == account_without_close_authority(old(self)@),
    {
        proof {
            self.lemma_fields();
        }
        self.close_authority.0[0] = 0;
        proof {
            self.lemma_fields();
            assert(self@ =~= account_without_close_authority(old(self)@));
        }
    }

    /// Sets the close authority.
    pub fn set_close_authority(&mut self, value: &Pubkey)
        ensures
            final(self)@ == account_with_close_authority(old(self)@, value@),
    {
        proof {
            self.lemma_fields();
        }
        self.close_authority.0[0] = 1;
        self.close_authority.1 = *value;
        proof {
            self.lemma_fields();
            assert(self@ =~= account_with_close_authority(old(self)@, value@));
        }
    }

    /// The close authority, if any.
    pub fn close_authority(&self) -> (r: Option<&Pubkey>)
        ensures
            match r {
                Some(k) => account_close_authority(self@) == Some(k@),
                None => account_close_authority(self@) is None,
            },
    {
        proof {
            self.lemma_fields();
        }
        if self.close_authority.0[0] == 1 {
            Some(&self.close_authority.1)
        } else {
            None
        }
    }

    /// Whether the account is frozen; invalid account data when the state byte
    /// names no state.
    pub fn is_frozen(&self) -> (r: Result<bool, ProgramError>)
        ensures
            r == account_is_frozen(self@),
    {
        proof {
            self.lemma_fields();
        }
        match AccountState::try_from(self.state) {
            Ok(state) => Ok(state == AccountState::Frozen),
            Err(e) => Err(e),
        }
    }

    /// Whether the account's owner is the system program or the incinerator.
    pub fn is_owned_by_system_program_or_incinerator(&self) -> (r: bool)
        ensures
            r == account_owned_by_system_or_incinerator(self@),
    {
        proof {
            self.lemma_fields();
        }
        pubkey_eq(&SYSTEM_PROGRAM_ID, &self.owner) || pubkey_eq(&INCINERATOR_ID, &self.owner)
    }
}

impl Transmutable for Account {
    open spec fn spec_len() -> usize {
        165
    }

    fn len() -> (r: usize) {
        165
    }

    fn from_bytes(bytes: &[u8]) -> (r: Self) {
        let r = Account {
            mint: read_array::<32>(bytes, 0),
            owner: read_array::<32>(bytes, 32),
            amount: read_array::<8>(bytes, 64),
            delegate: (read_array::<4>(bytes, 72), read_array::<32>(bytes, 76)),
            state: bytes[108],
            is_native: read_array::<4>(bytes, 109),
            native_amount: read_array::<8>(bytes, 113),
            delegated_amount: read_array::<8>(bytes, 121),
            close_authority: (read_array::<4>(bytes, 129), read_array::<32>(bytes, 133)),
        };
        proof {
            r.lemma_fields();
            assert(r@ =~= bytes@);
        }
        r
    }

    fn to_bytes(&self) -> (r: Vec<u8>) {
        let mut v: Vec<u8> = Vec::new();
        push_array(&mut v, &self.mint);
        push_array(&mut v, &self.owner);
        push_array(&mut v, &self.amount);
        push_array(&mut v, &self.delegate.0);
        push_array(&mut v, &self.delegate.1);
        v.push(self.state);
        push_array(&mut v, &self.is_native);
        push_array(&mut v, &self.native_amount);
        push_array(&mut v, &self.delegated_amount);
        push_array(&mut v, &self.close_authority.0);
        push_array(&mut v, &self.close_authority.1);
        assert(v@ =~= self@);
        v
    }
}

impl Initializable for Account {
    open spec fn initialized(bytes: Seq<u8>) -> Result<bool, ProgramError> {
        account_initialized(bytes)
    }

    fn is_initialized(&self) -> (r: Result<bool, ProgramError>) {
        proof {
            self.lemma_fields();
        }
        match AccountState::try_from(self.state) {
            Ok(state) => Ok(state != AccountState::Uninitialized),
            Err(e) => Err(e),
        }
    }
}

} // verus!
