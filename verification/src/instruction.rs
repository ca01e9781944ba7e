//! Instruction types.
use crate::error::{token_error, ProgramError, TokenError};
use vstd::prelude::*;

verus! {

/// Instructions supported by the token program, each named by its first
/// instruction-data byte: 0 to 24 in order, 38 and 255.
#[derive(Clone, Copy, Debug, PartialEq, Eq, Structural)]
pub enum TokenInstruction {
    /// Initializes a new mint (data: decimals, mint authority, optional freeze authority).
    InitializeMint,
    /// Initializes a new account to hold tokens (accounts: account, mint, owner, rent sysvar).
    InitializeAccount,
    /// Initializes a multisignature account with N provided signers (data: M).
    InitializeMultisig,
    /// Transfers tokens from one account to another, directly or via a delegate (data: amount).
    Transfer,
    /// Approves a delegate (data: amount).
    Approve,
    /// Revokes the delegate's authority.
    Revoke,
    /// Sets a new authority of a mint or account (data: authority type, optional new authority).
    SetAuthority,
    /// Mints new tokens to an account (data: amount).
    MintTo,
    /// Burns tokens by removing them from an account (data: amount).
    Burn,
    /// Closes an account by transferring all its SOL to the destination account.
    CloseAccount,
    /// Freezes an initialized account using the mint's freeze authority.
    FreezeAccount,
    /// Thaws a frozen account using the mint's freeze authority.
    ThawAccount,
    /// Transfers tokens, checking the mint and its decimals (data: amount, decimals).
    TransferChecked,
    /// Approves a delegate, checking the mint and its decimals (data: amount, decimals).
    ApproveChecked,
    /// Mints new tokens, checking the decimals (data: amount, decimals).
    MintToChecked,
    /// Burns tokens, checking the decimals (data: amount, decimals).
    BurnChecked,
    /// Like `InitializeAccount`, with the owner passed in the instruction data.
    InitializeAccount2,
    /// Updates a native token account's amount from its lamports.
    SyncNative,
    /// Like `InitializeAccount2`, without the rent sysvar account.
    InitializeAccount3,
    /// Like `InitializeMultisig`, without the rent sysvar account.
    InitializeMultisig2,
    /// Like `InitializeMint`, without the rent sysvar account.
    InitializeMint2,
    /// Gets the required size of an account for the given mint.
    GetAccountDataSize,
    /// Initializes the immutable owner extension (a no-op in this program).
    InitializeImmutableOwner,
    /// Converts an amount of tokens to its UI string, using the mint's decimals.
    AmountToUiAmount,
    /// Converts a UI amount string to a raw amount, using the mint's decimals.
    UiAmountToAmount,
    /// Rescues SOL sent to a token-program-owned account, leaving only the
    /// rent-exempt reserve.
    WithdrawExcessLamports,
    /// Executes a batch of instructions, each given by its number of accounts,
    /// its data length and its data.
    Batch,
}

impl TokenInstruction {
    /// The byte that names the instruction.
    pub open spec fn spec_to_u8(self) -> u8 {
        match self {
            TokenInstruction::InitializeMint => 0,
            TokenInstruction::InitializeAccount => 1,
            TokenInstruction::InitializeMultisig => 2,
            TokenInstruction::Transfer => 3,
            TokenInstruction::Approve => 4,
            TokenInstruction::Revoke => 5,
            TokenInstruction::SetAuthority => 6,
            TokenInstruction::MintTo => 7,
            TokenInstruction::Burn => 8,
            TokenInstruction::CloseAccount => 9,
            TokenInstruction::FreezeAccount => 10,
            TokenInstruction::ThawAccount => 11,
            TokenInstruction::TransferChecked => 12,
            TokenInstruction::ApproveChecked => 13,
            TokenInstruction::MintToChecked => 14,
            TokenInstruction::BurnChecked => 15,
            TokenInstruction::InitializeAccount2 => 16,
            TokenInstruction::SyncNative => 17,
            TokenInstruction::InitializeAccount3 => 18,
            TokenInstruction::InitializeMultisig2 => 19,
            TokenInstruction::InitializeMint2 => 20,
            TokenInstruction::GetAccountDataSize => 21,
            TokenInstruction::InitializeImmutableOwner => 22,
            TokenInstruction::AmountToUiAmount => 23,
            TokenInstruction::UiAmountToAmount => 24,
            TokenInstruction::WithdrawExcessLamports => 38,
            TokenInstruction::Batch => 255,
        }
    }

    /// The instruction a byte names, if any.
    pub open spec fn spec_from_u8(value: u8) -> Option<TokenInstruction> {
        if value == 0 {
            Some(TokenInstruction::InitializeMint)
        } else if value == 1 {
            Some(TokenInstruction::InitializeAccount)
        } else if value == 2 {
            Some(TokenInstruction::InitializeMultisig)
        } else if value == 3 {
            Some(TokenInstruction::Transfer)
        } else if value == 4 {
            Some(TokenInstruction::Approve)
        } else if value == 5 {
            Some(TokenInstruction::Revoke)
        } else if value == 6 {
            Some(TokenInstruction::SetAuthority)
        } else if value == 7 {
            Some(TokenInstruction::MintTo)
        } else if value == 8 {
            Some(TokenInstruction::Burn)
        } else if value == 9 {
            Some(TokenInstruction::CloseAccount)
        } else if value == 10 {
            Some(TokenInstruction::FreezeAccount)
        } else if value == 11 {
            Some(TokenInstruction::ThawAccount)
        } else if value == 12 {
            Some(TokenInstruction::TransferChecked)
        } else if value == 13 {
            Some(TokenInstruction::ApproveChecked)
        } else if value == 14 {
            Some(TokenInstruction::MintToChecked)
        } else if value == 15 {
            Some(TokenInstruction::BurnChecked)
        } else if value == 16 {
            Some(TokenInstruction::InitializeAccount2)
        } else if value == 17 {
            Some(TokenInstruction::SyncNative)
        } else if value == 18 {
            Some(TokenInstruction::InitializeAccount3)
        } else if value == 19 {
            Some(TokenInstruction::InitializeMultisig2)
        } else if value == 20 {
            Some(TokenInstruction::InitializeMint2)
        } else if value == 21 {
            Some(TokenInstruction::GetAccountDataSize)
        } else if value == 22 {
            Some(TokenInstruction::InitializeImmutableOwner)
        } else if value == 23 {
            Some(TokenInstruction::AmountToUiAmount)
        } else if value == 24 {
            Some(TokenInstruction::UiAmountToAmount)
        } else if value == 38 {
            Some(TokenInstruction::WithdrawExcessLamports)
        } else if value == 255 {
            Some(TokenInstruction::Batch)
        } else {
            None
        }
    }

    /// The byte that names the instruction.
    pub fn to_u8(&self) -> (r: u8)
        ensures
            r == self.spec_to_u8(),
    {
        match self {
            TokenInstruction::InitializeMint => 0,
            TokenInstruction::InitializeAccount => 1,
            TokenInstruction::InitializeMultisig => 2,
            TokenInstruction::Transfer => 3,
            TokenInstruction::Approve => 4,
            TokenInstruction::Revoke => 5,
            TokenInstruction::SetAuthority => 6,
            TokenInstruction::MintTo => 7,
            TokenInstruction::Burn => 8,
            TokenInstruction::CloseAccount => 9,
            TokenInstruction::FreezeAccount => 10,
            TokenInstruction::ThawAccount => 11,
            TokenInstruction::TransferChecked => 12,
            TokenInstruction::ApproveChecked => 13,
            TokenInstruction::MintToChecked => 14,
            TokenInstruction::BurnChecked => 15,
            TokenInstruction::InitializeAccount2 => 16,
            TokenInstruction::SyncNative => 17,
            TokenInstruction::InitializeAccount3 => 18,
            TokenInstruction::InitializeMultisig2 => 19,
            TokenInstruction::InitializeMint2 => 20,
            TokenInstruction::GetAccountDataSize => 21,
            TokenInstruction::InitializeImmutableOwner => 22,
            TokenInstruction::AmountToUiAmount => 23,
            TokenInstruction::UiAmountToAmount => 24,
            TokenInstruction::WithdrawExcessLamports => 38,
            TokenInstruction::Batch => 255,
        }
    }

    /// Reads an instruction from its byte: 0 to 24, 38 and 255 name
    /// instructions; any other byte is an invalid instruction.
    pub fn try_from(value: u8) -> (r: Result<TokenInstruction, ProgramError>)
        ensures
            match Self::spec_from_u8(value) {
                Some(i) => r == Ok::<TokenInstruction, ProgramError>(i),
                None => r == Err::<TokenInstruction, ProgramError>(
                    token_error(TokenError::InvalidInstruction),
                ),
            },
    {
        match value {
            0 => Ok(TokenInstruction::InitializeMint),
            1 => Ok(TokenInstruction::InitializeAccount),
            2 => Ok(TokenInstruction::InitializeMultisig),
            3 => Ok(TokenInstruction::Transfer),
            4 => Ok(TokenInstruction::Approve),
            5 => Ok(TokenInstruction::Revoke),
            6 => Ok(TokenInstruction::SetAuthority),
            7 => Ok(TokenInstruction::MintTo),
            8 => Ok(TokenInstruction::Burn),
            9 => Ok(TokenInstruction::CloseAccount),
            10 => Ok(TokenInstruction::FreezeAccount),
            11 => Ok(TokenInstruction::ThawAccount),
            12 => Ok(TokenInstruction::TransferChecked),
            13 => Ok(TokenInstruction::ApproveChecked),
            14 => Ok(TokenInstruction::MintToChecked),
            15 => Ok(TokenInstruction::BurnChecked),
            16 => Ok(TokenInstruction::InitializeAccount2),
            17 => Ok(TokenInstruction::SyncNative),
            18 => Ok(TokenInstruction::InitializeAccount3),
            19 => Ok(TokenInstruction::InitializeMultisig2),
            20 => Ok(TokenInstruction::InitializeMint2),
            21 => Ok(TokenInstruction::GetAccountDataSize),
            22 => Ok(TokenInstruction::InitializeImmutableOwner),
            23 => Ok(TokenInstruction::AmountToUiAmount),
            24 => Ok(TokenInstruction::UiAmountToAmount),
            38 => Ok(TokenInstruction::WithdrawExcessLamports),
            255 => Ok(TokenInstruction::Batch),
            _ => Err(TokenError::InvalidInstruction.into()),
        }
    }

    /// Every instruction, in declaration order.
    pub open spec fn spec_variants() -> Seq<TokenInstruction> {
        seq![
            TokenInstruction::InitializeMint,
            TokenInstruction::InitializeAccount,
            TokenInstruction::InitializeMultisig,
            TokenInstruction::Transfer,
            TokenInstruction::Approve,
            TokenInstruction::Revoke,
            TokenInstruction::SetAuthority,
            TokenInstruction::MintTo,
            TokenInstruction::Burn,
            TokenInstruction::CloseAccount,
            TokenInstruction::FreezeAccount,
            TokenInstruction::ThawAccount,
            TokenInstruction::TransferChecked,
            TokenInstruction::ApproveChecked,
            TokenInstruction::MintToChecked,
            TokenInstruction::BurnChecked,
            TokenInstruction::InitializeAccount2,
            TokenInstruction::SyncNative,
            TokenInstruction::InitializeAccount3,
            TokenInstruction::InitializeMultisig2,
            TokenInstruction::InitializeMint2,
            TokenInstruction::GetAccountDataSize,
            TokenInstruction::InitializeImmutableOwner,
            TokenInstruction::AmountToUiAmount,
            TokenInstruction::UiAmountToAmount,
            TokenInstruction::WithdrawExcessLamports,
            TokenInstruction::Batch,
        ]
    }

    /// Every instruction, in declaration order.
    pub fn iter() -> (r: Vec<TokenInstruction>)
        ensures
            r@ == Self::spec_variants(),
    {
        let mut v: Vec<TokenInstruction> = Vec::new();
        v.push(TokenInstruction::InitializeMint);
        v.push(TokenInstruction::InitializeAccount);
        v.push(TokenInstruction::InitializeMultisig);
        v.push(TokenInstruction::Transfer);
        v.push(TokenInstruction::Approve);
        v.push(TokenInstruction::Revoke);
        v.push(TokenInstruction::SetAuthority);
        v.push(TokenInstruction::MintTo);
        v.push(TokenInstruction::Burn);
        v.push(TokenInstruction::CloseAccount);
        v.push(TokenInstruction::FreezeAccount);
        v.push(TokenInstruction::ThawAccount);
        v.push(TokenInstruction::TransferChecked);
        v.push(TokenInstruction::ApproveChecked);
        v.push(TokenInstruction::MintToChecked);
        v.push(TokenInstruction::BurnChecked);
        v.push(TokenInstruction::InitializeAccount2);
        v.push(TokenInstruction::SyncNative);
        v.push(TokenInstruction::InitializeAccount3);
        v.push(TokenInstruction::InitializeMultisig2);
        v.push(TokenInstruction::InitializeMint2);
        v.push(TokenInstruction::GetAccountDataSize);
        v.push(TokenInstruction::InitializeImmutableOwner);
        v.push(TokenInstruction::AmountToUiAmount);
        v.push(TokenInstruction::UiAmountToAmount);
        v.push(TokenInstruction::WithdrawExcessLamports);
        v.push(TokenInstruction::Batch);
        assert(v@ =~= Self::spec_variants());
        v
    }

    /// The instruction whose byte is `value`, if any.
    pub fn from_repr(value: u8) -> (r: Option<TokenInstruction>)
        ensures
            r == Self::spec_from_u8(value),
    {
        match Self::try_from(value) {
            Ok(v) => Some(v),
            Err(_) => None,
        }
    }
}

/// Reading the byte that names an instruction gives the instruction back.
pub proof fn lemma_token_instruction_round_trip(i: TokenInstruction)
    ensures
        TokenInstruction::spec_from_u8(i.spec_to_u8()) == Some(i),
{
}

/// A byte that names an instruction is the byte of that instruction.
pub proof fn lemma_token_instruction_byte_round_trip(b: u8)
    ensures
        TokenInstruction::spec_from_u8(b) matches Some(i) ==> i.spec_to_u8() == b,
{
}

/// Specifies the authority type for `SetAuthority` instructions
#[derive(Clone, Copy, Debug, PartialEq, Eq, Structural)]
pub enum AuthorityType {
    /// Authority to mint new tokens
    MintTokens,
    /// Authority to freeze any account associated with the Mint
    FreezeAccount,
    /// Owner of a given token account
    AccountOwner,
    /// Authority to close a token account
    CloseAccount,
}

impl AuthorityType {
    /// The byte that names the authority type.
    pub open spec fn spec_to_u8(self) -> u8 {
        match self {
            AuthorityType::MintTokens => 0,
            AuthorityType::FreezeAccount => 1,
            AuthorityType::AccountOwner => 2,
            AuthorityType::CloseAccount => 3,
        }
    }

    /// The authority type a byte names, if any.
    pub open spec fn spec_from_u8(value: u8) -> Option<AuthorityType> {
        if value == 0 {
            Some(AuthorityType::MintTokens)
        } else if value == 1 {
            Some(AuthorityType::FreezeAccount)
        } else if value == 2 {
            Some(AuthorityType::AccountOwner)
        } else if value == 3 {
            Some(AuthorityType::CloseAccount)
        } else {
            None
        }
    }

    /// The byte that names the authority type.
    pub fn to_u8(&self) -> (r: u8)
        ensures
            r == self.spec_to_u8(),
    {
        match self {
            AuthorityType::MintTokens => 0,
            AuthorityType::FreezeAccount => 1,
            AuthorityType::AccountOwner => 2,
            AuthorityType::CloseAccount => 3,
        }
    }

    /// Reads an authority type from its byte: 0 to 3 name types; any other byte
    /// is an invalid instruction.
    pub fn try_from(value: u8) -> (r: Result<AuthorityType, ProgramError>)
        ensures
            match Self::spec_from_u8(value) {
                Some(a) => r == Ok::<AuthorityType, ProgramError>(a),
                None => r == Err::<AuthorityType, ProgramError>(
                    token_error(TokenError::InvalidInstruction),
                ),
            },
    {
        match value {
            0 => Ok(AuthorityType::MintTokens),
            1 => Ok(AuthorityType::FreezeAccount),
            2 => Ok(AuthorityType::AccountOwner),
            3 => Ok(AuthorityType::CloseAccount),
            _ => Err(TokenError::InvalidInstruction.into()),
        }
    }

    /// Every authority type, in declaration order.
    pub open spec fn spec_variants() -> Seq<AuthorityType> {
        seq![
            AuthorityType::MintTokens,
            AuthorityType::FreezeAccount,
            AuthorityType::AccountOwner,
            AuthorityType::CloseAccount,
        ]
    }

    /// Every authority type, in declaration order.
    pub fn iter() -> (r: Vec<AuthorityType>)
        ensures
            r@ == Self::spec_variants(),
    {
        let mut v: Vec<AuthorityType> = Vec::new();
        v.push(AuthorityType::MintTokens);
        v.push(AuthorityType::FreezeAccount);
        v.push(AuthorityType::AccountOwner);
        v.push(AuthorityType::CloseAccount);
        assert(v@ =~= Self::spec_variants());
        v
    }

    /// The authority type whose byte is `value`, if any.
    pub fn from_repr(value: u8) -> (r: Option<AuthorityType>)
        ensures
            r == Self::spec_from_u8(value),
    {
        match Self::try_from(value) {
            Ok(v) => Some(v),
            Err(_) => None,
        }
    }
}

/// Reading the byte that names an authority type gives the type back.
pub proof fn lemma_authority_type_round_trip(a: AuthorityType)
    ensures
        AuthorityType::spec_from_u8(a.spec_to_u8()) == Some(a),
{
}

} // verus!
