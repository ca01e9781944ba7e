//! Error types.
use vstd::prelude::*;

verus! {

/// Reasons the program may fail (the runtime's program error codes).
#[derive(Clone, Copy, Debug, PartialEq, Eq, Structural)]
pub enum ProgramError {
    /// Program-specific error, see [`TokenError`].
    Custom(u32),
    InvalidArgument,
    InvalidInstructionData,
    InvalidAccountData,
    AccountDataTooSmall,
    InsufficientFunds,
    IncorrectProgramId,
    MissingRequiredSignature,
    AccountAlreadyInitialized,
    UninitializedAccount,
    NotEnoughAccountKeys,
    AccountBorrowFailed,
    MaxSeedLengthExceeded,
    InvalidSeeds,
    BorshIoError,
    AccountNotRentExempt,
    UnsupportedSysvar,
    IllegalOwner,
    MaxAccountsDataAllocationsExceeded,
    InvalidRealloc,
    MaxInstructionTraceLengthExceeded,
    BuiltinProgramsMustConsumeComputeUnits,
    InvalidAccountOwner,
    ArithmeticOverflow,
    Immutable,
    IncorrectAuthority,
}

/// Errors that may be returned by the Token program.
#[derive(Clone, Copy, Debug, PartialEq, Eq, Structural)]
pub enum TokenError {
    /// Lamport balance below rent-exempt threshold.
    NotRentExempt,
    /// Insufficient funds for the operation requested.
    InsufficientFunds,
    /// Invalid Mint.
    InvalidMint,
    /// Account not associated with this Mint.
    MintMismatch,
    /// Owner does not match.
    OwnerMismatch,
    /// This token's supply is fixed and new tokens cannot be minted.
    FixedSupply,
    /// The account cannot be initialized because it is already being used.
    AlreadyInUse,
    /// Invalid number of provided signers.
    InvalidNumberOfProvidedSigners,
    /// Invalid number of required signers.
    InvalidNumberOfRequiredSigners,
    /// State is uninitialized.
    UninitializedState,
    /// Instruction does not support native tokens
    NativeNotSupported,
    /// Non-native account can only be closed if its balance is zero
    NonNativeHasBalance,
    /// Invalid instruction
    InvalidInstruction,
    /// State is invalid for requested operation.
    InvalidState,
    /// Operation overflowed
    Overflow,
    /// Account does not support specified authority type.
    AuthorityTypeNotSupported,
    /// This token mint cannot freeze accounts.
    MintCannotFreeze,
    /// Account is frozen; all account operations will fail
    AccountFrozen,
    /// Mint decimals mismatch between the client and mint
    MintDecimalsMismatch,
    /// Instruction does not support non-native tokens
    NonNativeNotSupported,
}

impl TokenError {
    /// The error's code: its position in the list of token errors.
    pub open spec fn spec_code(self) -> u32 {
        match self {
            TokenError::NotRentExempt => 0,
            TokenError::InsufficientFunds => 1,
            TokenError::InvalidMint => 2,
            TokenError::MintMismatch => 3,
            TokenError::OwnerMismatch => 4,
            TokenError::FixedSupply => 5,
            TokenError::AlreadyInUse => 6,
            TokenError::InvalidNumberOfProvidedSigners => 7,
            TokenError::InvalidNumberOfRequiredSigners => 8,
            TokenError::UninitializedState => 9,
            TokenError::NativeNotSupported => 10,
            TokenError::NonNativeHasBalance => 11,
            TokenError::InvalidInstruction => 12,
            TokenError::InvalidState => 13,
            TokenError::Overflow => 14,
            TokenError::AuthorityTypeNotSupported => 15,
            TokenError::MintCannotFreeze => 16,
            TokenError::AccountFrozen => 17,
            TokenError::MintDecimalsMismatch => 18,
            TokenError::NonNativeNotSupported => 19,
        }
    }

    /// The error's code: its position in the list of token errors.
    pub fn code(&self) -> (r: u32)
        ensures
            r == self.spec_code(),
    {
        match self {
            TokenError::NotRentExempt => 0,
            TokenError::InsufficientFunds => 1,
            TokenError::InvalidMint => 2,
            TokenError::MintMismatch => 3,
            TokenError::OwnerMismatch => 4,
            TokenError::FixedSupply => 5,
            TokenError::AlreadyInUse => 6,
            TokenError::InvalidNumberOfProvidedSigners => 7,
            TokenError::InvalidNumberOfRequiredSigners => 8,
            TokenError::UninitializedState => 9,
            TokenError::NativeNotSupported => 10,
            TokenError::NonNativeHasBalance => 11,
            TokenError::InvalidInstruction => 12,
            TokenError::InvalidState => 13,
            TokenError::Overflow => 14,
            TokenError::AuthorityTypeNotSupported => 15,
            TokenError::MintCannotFreeze => 16,
            TokenError::AccountFrozen => 17,
            TokenError::MintDecimalsMismatch => 18,
            TokenError::NonNativeNotSupported => 19,
        }
    }
}

/// The program error that a token error becomes: `Custom` with the error's code.
pub open spec fn token_error(e: TokenError) -> ProgramError {
    ProgramError::Custom(e.spec_code())
}

impl From<TokenError> for ProgramError {
    fn from(e: TokenError) -> (r: ProgramError) {
        ProgramError::Custom(e.code())
    }
}

impl vstd::std_specs::convert::FromSpecImpl<TokenError> for ProgramError {
    open spec fn obeys_from_spec() -> bool {
        true
    }

    open spec fn from_spec(e: TokenError) -> ProgramError {
        token_error(e)
    }
}

} // verus!
