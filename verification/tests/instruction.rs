use p_token::error::{ProgramError, TokenError};
use p_token::instruction::{AuthorityType, TokenInstruction};
use p_token::processor::set_authority::SetAuthority;

#[test]
fn test_token_instruction_from_u8_exhaustive() {
    for variant in TokenInstruction::iter() {
        let variant_u8 = variant.clone().to_u8();
        assert_eq!(
            TokenInstruction::from_repr(variant_u8),
            Some(TokenInstruction::try_from(variant_u8).unwrap())
        );
        assert_eq!(TokenInstruction::try_from(variant_u8).unwrap(), variant);
    }
}

#[test]
fn test_authority_type_from_u8_exhaustive() {
    for variant in AuthorityType::iter() {
        let variant_u8 = variant.clone().to_u8();
        assert_eq!(
            AuthorityType::from_repr(variant_u8),
            Some(AuthorityType::try_from(variant_u8).unwrap())
        );
        assert_eq!(AuthorityType::try_from(variant_u8).unwrap(), variant);
    }
}

#[test]
fn token_instruction_bytes() {
    assert_eq!(TokenInstruction::iter().len(), 27);
    assert_eq!(TokenInstruction::Transfer.to_u8(), 3);
    assert_eq!(TokenInstruction::InitializeMint2.to_u8(), 20);
    assert_eq!(TokenInstruction::UiAmountToAmount.to_u8(), 24);
    assert_eq!(TokenInstruction::WithdrawExcessLamports.to_u8(), 38);
    assert_eq!(TokenInstruction::Batch.to_u8(), 255);
    assert_eq!(TokenInstruction::try_from(38), Ok(TokenInstruction::WithdrawExcessLamports));
}

#[test]
fn token_instruction_unknown_bytes() {
    for b in [25u8, 26, 37, 39, 100, 103, 254] {
        assert_eq!(TokenInstruction::from_repr(b), None);
        assert_eq!(
            TokenInstruction::try_from(b),
            Err(ProgramError::Custom(TokenError::InvalidInstruction.code()))
        );
    }
}

#[test]
fn authority_type_bytes() {
    assert_eq!(AuthorityType::iter().len(), 4);
    assert_eq!(AuthorityType::CloseAccount.to_u8(), 3);
    assert_eq!(AuthorityType::from_repr(4), None);
    assert_eq!(AuthorityType::try_from(4), Err(ProgramError::Custom(12)));
}

#[test]
fn token_error_codes() {
    assert_eq!(TokenError::NotRentExempt.code(), 0);
    assert_eq!(TokenError::InvalidInstruction.code(), 12);
    assert_eq!(TokenError::AccountFrozen.code(), 17);
    assert_eq!(TokenError::NonNativeNotSupported.code(), 19);
    assert_eq!(ProgramError::from(TokenError::Overflow), ProgramError::Custom(14));
}

#[test]
fn set_authority_data_of_two_bytes() {
    let v = SetAuthority::try_from_bytes(&[3, 0]).unwrap();
    assert_eq!(v.authority_type, AuthorityType::CloseAccount);
    assert_eq!(v.new_authority, None);
    let mut data = vec![0u8, 1];
    data.extend_from_slice(&[9u8; 32]);
    let v = SetAuthority::try_from_bytes(&data).unwrap();
    assert_eq!(v.authority_type, AuthorityType::MintTokens);
    assert_eq!(v.new_authority, Some([9u8; 32]));
    assert_eq!(SetAuthority::try_from_bytes(&[3]).err(), Some(ProgramError::Custom(12)));
    assert_eq!(SetAuthority::try_from_bytes(&[3, 1, 0]).err(), Some(ProgramError::Custom(12)));
}
