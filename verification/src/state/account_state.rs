//! The state of a token account.
use crate::error::ProgramError;
use vstd::prelude::*;

verus! {

/// The state of a token account, stored as one byte.
#[derive(Clone, Copy, Debug, PartialEq, Eq, Structural)]
pub enum AccountState {
    /// Account is not yet initialized
    Uninitialized,
    /// Account is initialized; the account owner and/or delegate may perform
    /// permitted operations on this account
    Initialized,
    /// Account has been frozen by the mint freeze authority. Neither the
    /// account owner nor the delegate are able to perform operations on
    /// this account.
    Frozen,
}

impl AccountState {
    /// The byte that stores the state.
    pub open spec fn spec_to_u8(self) -> u8 {
        match self {
            AccountState::Uninitialized => 0,
            AccountState::Initialized => 1,
            AccountState::Frozen => 2,
        }
    }

    /// The state stored in a byte, if the byte names one.
    pub open spec fn spec_from_u8(value: u8) -> Result<AccountState, ProgramError> {
        if value == 0 {
            Ok(AccountState::Uninitialized)
        } else if value == 1 {
            Ok(AccountState::Initialized)
        } else if value == 2 {
            Ok(AccountState::Frozen)
        } else {
            Err(ProgramError::InvalidAccountData)
        }
    }

    /// The byte that stores the state.
    pub fn to_u8(&self) -> (r: u8)
        ensures
            r == self.spec_to_u8(),
    {
        match self {
            AccountState::Uninitialized => 0,
            AccountState::Initialized => 1,
            AccountState::Frozen => 2,
        }
    }

    /// Reads a state from its byte: 0, 1 and 2 name the states, any other byte is
    /// invalid account data.
    pub fn try_from(value: u8) -> (r: Result<AccountState, ProgramError>)
        ensures
            r == Self::spec_from_u8(value),
    {
        match value {
            0 => Ok(AccountState::Uninitialized),
            1 => Ok(AccountState::Initialized),
            2 => Ok(AccountState::Frozen),
            _ => Err(ProgramError::InvalidAccountData),
        }
    }
}

/// Reading the byte that stores a state gives the state back.
pub proof fn lemma_account_state_round_trip(s: AccountState)
    ensures
        AccountState::spec_from_u8(s.spec_to_u8()) == Ok::<AccountState, ProgramError>(s),
{
}

/// A byte that reads as a state is the byte that stores that state.
pub proof fn lemma_account_state_byte_round_trip(b: u8)
    ensures
        AccountState::spec_from_u8(b) matches Ok(s) ==> s.spec_to_u8() == b,
        AccountState::spec_from_u8(b) is Ok <==> b <= 2,
{
}

} // verus!
