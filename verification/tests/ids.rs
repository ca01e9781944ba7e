use p_token::error::ProgramError;
use p_token::native_mint::{is_native_mint, ID as NATIVE_MINT};
use p_token::pubkey::{check_program_account, pubkey_eq, ID};
use p_token::rent::RENT_ID;
use p_token::state::account::{INCINERATOR_ID, SYSTEM_PROGRAM_ID};

#[test]
fn well_known_addresses_match_their_base58_names() {
    assert_eq!(ID, pinocchio_pubkey::from_str("TokenkegQfeZyiNwAJbNbGKPFXCWuBvf9Ss623VQ5DA"));
    assert_eq!(NATIVE_MINT, pinocchio_pubkey::from_str("So11111111111111111111111111111111111111112"));
    assert_eq!(RENT_ID, pinocchio_pubkey::from_str("SysvarRent111111111111111111111111111111111"));
    assert_eq!(INCINERATOR_ID, pinocchio_pubkey::from_str("1nc1nerator11111111111111111111111111111111"));
    assert_eq!(SYSTEM_PROGRAM_ID, pinocchio_pubkey::from_str("11111111111111111111111111111111"));
}

#[test]
fn check_program_account_accepts_only_the_token_program() {
    assert_eq!(check_program_account(&ID), Ok(()));
    let mut other = ID;
    other[31] ^= 1;
    assert_eq!(check_program_account(&other), Err(ProgramError::IncorrectProgramId));
}

#[test]
fn native_mint_is_recognized() {
    assert!(is_native_mint(&NATIVE_MINT));
    assert!(!is_native_mint(&ID));
    assert!(pubkey_eq(&ID, &ID));
    assert!(!pubkey_eq(&ID, &NATIVE_MINT));
}
