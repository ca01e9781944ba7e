use p_token::account_info::AccountInfo;
use p_token::error::ProgramError;
use p_token::pubkey::ID;
use p_token::state::account::{Account, INCINERATOR_ID};
use p_token::state::account_state::AccountState;
use p_token::state::mint::Mint;
use p_token::state::multisig::{Multisig, MAX_SIGNERS};
use p_token::state::{load, load_unchecked, validate_option, Initializable, Transmutable};
use p_token::{likely, unlikely};

const MINT: [u8; 32] = [1; 32];
const ALICE: [u8; 32] = [2; 32];
const BOB: [u8; 32] = [3; 32];

fn account_bytes() -> Vec<u8> {
    let mut d = vec![0u8; 165];
    d[0..32].copy_from_slice(&MINT);
    d[32..64].copy_from_slice(&ALICE);
    d[64..72].copy_from_slice(&500u64.to_le_bytes());
    d[108] = 1;
    d
}

#[test]
fn account_fields_read_and_write() {
    let bytes = account_bytes();
    let mut a = Account::from_bytes(&bytes);
    assert_eq!(a.to_bytes(), bytes);
    assert_eq!(a.mint(), &MINT);
    assert_eq!(a.owner(), &ALICE);
    assert_eq!(a.amount(), 500);
    assert_eq!(a.account_state(), Ok(AccountState::Initialized));
    assert_eq!(a.is_initialized(), Ok(true));
    assert_eq!(a.is_frozen(), Ok(false));
    assert_eq!(a.delegate(), None);
    assert_eq!(a.close_authority(), None);
    assert_eq!(a.native_amount(), None);
    assert!(!a.is_native());

    a.set_amount(7);
    a.set_delegate(&BOB);
    a.set_delegated_amount(3);
    a.set_close_authority(&BOB);
    a.set_account_state(AccountState::Frozen);
    assert_eq!(a.amount(), 7);
    assert_eq!(a.delegate(), Some(&BOB));
    assert_eq!(a.delegated_amount(), 3);
    assert_eq!(a.close_authority(), Some(&BOB));
    assert_eq!(a.is_frozen(), Ok(true));
    let out = a.to_bytes();
    assert_eq!(&out[64..72], &7u64.to_le_bytes());
    assert_eq!(out[72], 1);
    assert_eq!(&out[76..108], &BOB);
    assert_eq!(out[108], 2);

    a.clear_delegate();
    a.clear_close_authority();
    assert_eq!(a.delegate(), None);
    assert_eq!(a.close_authority(), None);

    a.set_native(true);
    a.set_native_amount(2_039_280);
    assert!(a.is_native());
    assert_eq!(a.native_amount(), Some(2_039_280));
}

#[test]
fn account_owned_by_the_incinerator() {
    let mut a = Account::from_bytes(&account_bytes());
    assert!(!a.is_owned_by_system_program_or_incinerator());
    a.set_owner(&INCINERATOR_ID);
    assert!(a.is_owned_by_system_program_or_incinerator());
    a.set_owner(&[0; 32]);
    assert!(a.is_owned_by_system_program_or_incinerator());
}

#[test]
fn invalid_account_state_byte() {
    let mut bytes = account_bytes();
    bytes[108] = 3;
    let a = Account::from_bytes(&bytes);
    assert_eq!(a.account_state(), Err(ProgramError::InvalidAccountData));
    assert_eq!(a.is_initialized(), Err(ProgramError::InvalidAccountData));
    assert_eq!(AccountState::try_from(2), Ok(AccountState::Frozen));
    assert_eq!(AccountState::try_from(3), Err(ProgramError::InvalidAccountData));
    assert_eq!(AccountState::Frozen.to_u8(), 2);
}

#[test]
fn load_checks_length_and_initialization() {
    let bytes = account_bytes();
    assert!(load::<Account>(&bytes).is_ok());
    assert_eq!(load::<Account>(&bytes[..164]).err(), Some(ProgramError::InvalidAccountData));
    let mut fresh = bytes.clone();
    fresh[108] = 0;
    assert_eq!(load::<Account>(&fresh).err(), Some(ProgramError::UninitializedAccount));
    assert!(load_unchecked::<Account>(&fresh).is_ok());
    assert_eq!(Account::len(), 165);
    assert_eq!(Mint::len(), 82);
    assert_eq!(Multisig::len(), 355);
}

#[test]
fn mint_fields_read_and_write() {
    let mut m = Mint::from_bytes(&[0u8; 82]);
    assert_eq!(m.is_initialized(), Ok(false));
    m.set_initialized();
    m.set_supply(1_000);
    m.set_decimals(6);
    m.set_mint_authority(&ALICE);
    m.set_freeze_authority(&BOB);
    assert_eq!(m.is_initialized(), Ok(true));
    assert_eq!(m.supply(), 1_000);
    assert_eq!(m.decimals(), 6);
    assert_eq!(m.mint_authority(), Some(&ALICE));
    assert_eq!(m.freeze_authority(), Some(&BOB));
    let out = m.to_bytes();
    assert_eq!(out[0], 1);
    assert_eq!(&out[4..36], &ALICE);
    assert_eq!(&out[36..44], &1_000u64.to_le_bytes());
    assert_eq!((out[44], out[45], out[46]), (6, 1, 1));
    m.clear_mint_authority();
    m.clear_freeze_authority();
    assert_eq!(m.mint_authority(), None);
    assert_eq!(m.freeze_authority(), None);

    let mut bad = [0u8; 82];
    bad[45] = 2;
    assert_eq!(Mint::from_bytes(&bad).is_initialized(), Err(ProgramError::InvalidAccountData));
}

#[test]
fn mint_from_account_info_checks_the_owner() {
    let mut data = vec![0u8; 82];
    data[45] = 1;
    let info = AccountInfo { key: MINT, owner: ID, lamports: 1, data: data.clone(), is_signer: false };
    assert!(Mint::from_account_info(&info).is_ok());
    let other = AccountInfo { key: MINT, owner: BOB, lamports: 1, data, is_signer: false };
    assert_eq!(Mint::from_account_info(&other).err(), Some(ProgramError::InvalidAccountOwner));
    let short = AccountInfo { key: MINT, owner: ID, lamports: 1, data: vec![0; 81], is_signer: false };
    assert_eq!(Mint::from_account_info(&short).err(), Some(ProgramError::InvalidAccountData));
}

#[test]
fn multisig_fields_read_and_write() {
    let mut ms = Multisig::from_bytes(&[0u8; 355]);
    assert_eq!(ms.is_initialized(), Ok(false));
    ms.set_m(2);
    ms.set_n(3);
    ms.set_signer(0, &ALICE);
    ms.set_signer(10, &BOB);
    ms.set_initialized(true);
    assert_eq!((ms.m(), ms.n()), (2, 3));
    assert_eq!(ms.signer(0), &ALICE);
    assert_eq!(ms.signer(10), &BOB);
    assert_eq!(ms.is_initialized(), Ok(true));
    let out = ms.to_bytes();
    assert_eq!((out[0], out[1], out[2]), (2, 3, 1));
    assert_eq!(&out[323..355], &BOB);
    assert!(Multisig::is_valid_signer_index(1));
    assert!(Multisig::is_valid_signer_index(MAX_SIGNERS));
    assert!(!Multisig::is_valid_signer_index(0));
    assert!(!Multisig::is_valid_signer_index(12));
}

#[test]
fn option_tags() {
    assert_eq!(validate_option([0, 0, 0, 0]), Ok(()));
    assert_eq!(validate_option([1, 0, 0, 0]), Ok(()));
    assert_eq!(validate_option([2, 0, 0, 0]), Err(ProgramError::InvalidAccountData));
    assert_eq!(validate_option([0, 1, 0, 0]), Err(ProgramError::InvalidAccountData));
}

#[test]
fn branch_hints_return_their_argument() {
    assert!(likely(true));
    assert!(!likely(false));
    assert!(unlikely(true));
    assert!(!unlikely(false));
}
