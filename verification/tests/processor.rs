use p_token::account_info::AccountInfo;
use p_token::admissible::{authority_valid, rent_account_valid, rent_valid, rent_value_valid};
use p_token::entrypoint::{process_instruction, try_process_instruction};
use p_token::error::{ProgramError, TokenError};
use p_token::native_mint::ID as NATIVE_MINT;
use p_token::pubkey::ID;
use p_token::rent::{minimum_balance_from_account, minimum_balance_from_sysvar, RENT_ID};
use p_token::state::account::INCINERATOR_ID;

const MINT: [u8; 32] = [1; 32];
const ALICE: [u8; 32] = [2; 32];
const BOB: [u8; 32] = [3; 32];
const SRC: [u8; 32] = [4; 32];
const DST: [u8; 32] = [5; 32];
const DELEGATE: [u8; 32] = [6; 32];
const MINT_AUTH: [u8; 32] = [7; 32];
const FREEZE_AUTH: [u8; 32] = [8; 32];
const NEW_AUTH: [u8; 32] = [9; 32];
const MULTISIG: [u8; 32] = [10; 32];
const SYSTEM: [u8; 32] = [0; 32];

// Rent-exempt minimums with 3480 lamports per byte-year and a two-year threshold.
const MINT_RENT: u64 = 1_461_600;
const ACCOUNT_RENT: u64 = 2_039_280;
const MULTISIG_RENT: u64 = 3_361_680;

fn rent_bytes() -> Vec<u8> {
    let mut v = 3480u64.to_le_bytes().to_vec();
    v.extend_from_slice(&2.0f64.to_le_bytes());
    v.push(50);
    v
}

fn rent() -> Result<Vec<u8>, ProgramError> {
    Ok(rent_bytes())
}

fn info(key: [u8; 32], owner: [u8; 32], lamports: u64, data: Vec<u8>, is_signer: bool) -> AccountInfo {
    AccountInfo { key, owner, lamports, data, is_signer }
}

fn signer(key: [u8; 32]) -> AccountInfo {
    info(key, SYSTEM, 1_000_000, Vec::new(), true)
}

fn rent_account() -> AccountInfo {
    info(RENT_ID, SYSTEM, 1_000_000, rent_bytes(), false)
}

fn mint_data(auth: Option<[u8; 32]>, supply: u64, decimals: u8, freeze: Option<[u8; 32]>) -> Vec<u8> {
    let mut d = vec![0u8; 82];
    if let Some(k) = auth {
        d[0] = 1;
        d[4..36].copy_from_slice(&k);
    }
    d[36..44].copy_from_slice(&supply.to_le_bytes());
    d[44] = decimals;
    d[45] = 1;
    if let Some(k) = freeze {
        d[46] = 1;
        d[50..82].copy_from_slice(&k);
    }
    d
}

fn token_data(mint: [u8; 32], owner: [u8; 32], amount: u64, state: u8) -> Vec<u8> {
    let mut d = vec![0u8; 165];
    d[0..32].copy_from_slice(&mint);
    d[32..64].copy_from_slice(&owner);
    d[64..72].copy_from_slice(&amount.to_le_bytes());
    d[108] = state;
    d
}

fn with_delegate(mut d: Vec<u8>, delegate: [u8; 32], delegated: u64) -> Vec<u8> {
    d[72] = 1;
    d[76..108].copy_from_slice(&delegate);
    d[121..129].copy_from_slice(&delegated.to_le_bytes());
    d
}

fn with_native(mut d: Vec<u8>, reserve: u64) -> Vec<u8> {
    d[109] = 1;
    d[113..121].copy_from_slice(&reserve.to_le_bytes());
    d
}

fn mint_account(data: Vec<u8>) -> AccountInfo {
    info(MINT, ID, MINT_RENT, data, false)
}

fn token_account(key: [u8; 32], data: Vec<u8>) -> AccountInfo {
    info(key, ID, ACCOUNT_RENT, data, false)
}

fn u64_at(d: &[u8], off: usize) -> u64 {
    u64::from_le_bytes(d[off..off + 8].try_into().unwrap())
}

fn amount_of(a: &AccountInfo) -> u64 {
    u64_at(&a.data, 64)
}

fn supply_of(a: &AccountInfo) -> u64 {
    u64_at(&a.data, 36)
}

fn with_amount(tag: u8, amount: u64) -> Vec<u8> {
    let mut v = vec![tag];
    v.extend_from_slice(&amount.to_le_bytes());
    v
}

fn run(accounts: &mut Vec<AccountInfo>, data: &[u8]) -> Result<Option<Vec<u8>>, ProgramError> {
    process_instruction(&ID, accounts, data, &rent())
}

fn custom(e: TokenError) -> ProgramError {
    ProgramError::Custom(e.code())
}

fn transfer_accounts(src_amount: u64) -> Vec<AccountInfo> {
    vec![
        token_account(SRC, token_data(MINT, ALICE, src_amount, 1)),
        token_account(DST, token_data(MINT, BOB, 0, 1)),
        signer(ALICE),
    ]
}

// ---------------------------------------------------------------------------
// Dispatch.
// ---------------------------------------------------------------------------

#[test]
fn empty_instruction_data_is_invalid() {
    let mut accounts = Vec::new();
    assert_eq!(run(&mut accounts, &[]), Err(custom(TokenError::InvalidInstruction)));
}

#[test]
fn unknown_discriminators_are_invalid() {
    for d in [25u8, 37, 39, 103, 200] {
        let mut accounts = transfer_accounts(10);
        assert_eq!(run(&mut accounts, &[d, 0, 0, 0, 0, 0, 0, 0, 0]), Err(ProgramError::Custom(12)));
    }
}

// ---------------------------------------------------------------------------
// Mints.
// ---------------------------------------------------------------------------

fn initialize_mint_data(tag: u8, decimals: u8, freeze: Option<[u8; 32]>) -> Vec<u8> {
    let mut v = vec![tag, decimals];
    v.extend_from_slice(&MINT_AUTH);
    match freeze {
        Some(k) => {
            v.push(1);
            v.extend_from_slice(&k);
        }
        None => v.push(0),
    }
    v
}

#[test]
fn initialize_mint_with_freeze_authority() {
    let mut accounts = vec![info(MINT, ID, MINT_RENT, vec![0; 82], false), rent_account()];
    let r = run(&mut accounts, &initialize_mint_data(0, 6, Some(FREEZE_AUTH)));
    assert_eq!(r, Ok(None));
    assert_eq!(accounts[0].data, mint_data(Some(MINT_AUTH), 0, 6, Some(FREEZE_AUTH)));
}

#[test]
fn initialize_mint_without_freeze_authority() {
    let mut accounts = vec![info(MINT, ID, MINT_RENT, vec![0; 82], false), rent_account()];
    assert_eq!(run(&mut accounts, &initialize_mint_data(0, 9, None)), Ok(None));
    assert_eq!(accounts[0].data, mint_data(Some(MINT_AUTH), 0, 9, None));
}

#[test]
fn initialize_mint_errors() {
    let mut accounts = vec![info(MINT, ID, MINT_RENT - 1, vec![0; 82], false), rent_account()];
    assert_eq!(
        run(&mut accounts, &initialize_mint_data(0, 6, None)),
        Err(custom(TokenError::NotRentExempt))
    );
    assert_eq!(accounts[0].data, vec![0; 82]);

    let mut accounts = vec![mint_account(mint_data(None, 0, 0, None)), rent_account()];
    assert_eq!(
        run(&mut accounts, &initialize_mint_data(0, 6, None)),
        Err(custom(TokenError::AlreadyInUse))
    );

    let mut accounts = vec![info(MINT, ID, MINT_RENT, vec![0; 82], false), rent_account()];
    let data = initialize_mint_data(0, 6, None);
    assert_eq!(run(&mut accounts, &data[..33]), Err(custom(TokenError::InvalidInstruction)));
    let mut bad_tag = data.clone();
    bad_tag[34] = 2;
    assert_eq!(run(&mut accounts, &bad_tag), Err(custom(TokenError::InvalidInstruction)));
    let mut short_freeze = data.clone();
    short_freeze[34] = 1;
    assert_eq!(run(&mut accounts, &short_freeze), Err(custom(TokenError::InvalidInstruction)));
    let mut longer = data.clone();
    longer.push(7);
    assert_eq!(run(&mut accounts, &longer), Ok(None));
    assert_eq!(accounts[0].data, mint_data(Some(MINT_AUTH), 0, 6, None));

    let mut accounts = vec![info(MINT, ID, MINT_RENT, vec![0; 82], false), signer(BOB)];
    assert_eq!(
        run(&mut accounts, &initialize_mint_data(0, 6, None)),
        Err(ProgramError::InvalidArgument)
    );

    let mut accounts = vec![info(MINT, ID, MINT_RENT, vec![0; 82], false)];
    assert_eq!(
        run(&mut accounts, &initialize_mint_data(0, 6, None)),
        Err(ProgramError::NotEnoughAccountKeys)
    );
}

#[test]
fn initialize_mint2_uses_the_rent_value() {
    let mut accounts = vec![info(MINT, ID, MINT_RENT, vec![0; 82], false)];
    assert_eq!(run(&mut accounts, &initialize_mint_data(20, 2, None)), Ok(None));
    assert_eq!(accounts[0].data, mint_data(Some(MINT_AUTH), 0, 2, None));

    let mut accounts = vec![info(MINT, ID, MINT_RENT, vec![0; 82], false)];
    let r = process_instruction(
        &ID,
        &mut accounts,
        &initialize_mint_data(20, 2, None),
        &Err(ProgramError::UnsupportedSysvar),
    );
    assert_eq!(r, Err(ProgramError::UnsupportedSysvar));
}

// ---------------------------------------------------------------------------
// Token accounts.
// ---------------------------------------------------------------------------

#[test]
fn initialize_account_sets_mint_owner_and_state() {
    let mut accounts = vec![
        info(SRC, ID, ACCOUNT_RENT, vec![0; 165], false),
        mint_account(mint_data(Some(MINT_AUTH), 0, 6, None)),
        signer(ALICE),
        rent_account(),
    ];
    assert_eq!(run(&mut accounts, &[1]), Ok(None));
    assert_eq!(accounts[0].data, token_data(MINT, ALICE, 0, 1));
}

#[test]
fn initialize_native_account_holds_its_excess_lamports() {
    let mut accounts = vec![
        info(SRC, ID, ACCOUNT_RENT + 500, vec![0; 165], false),
        info(NATIVE_MINT, SYSTEM, 1, Vec::new(), false),
        signer(ALICE),
        rent_account(),
    ];
    assert_eq!(run(&mut accounts, &[1]), Ok(None));
    assert_eq!(accounts[0].data, with_native(token_data(NATIVE_MINT, ALICE, 500, 1), ACCOUNT_RENT));
}

#[test]
fn initialize_account_errors() {
    let mut accounts = vec![
        info(SRC, ID, ACCOUNT_RENT, vec![0; 165], false),
        info(MINT, BOB, MINT_RENT, mint_data(Some(MINT_AUTH), 0, 6, None), false),
        signer(ALICE),
        rent_account(),
    ];
    assert_eq!(run(&mut accounts, &[1]), Err(ProgramError::IncorrectProgramId));

    let mut accounts = vec![
        info(SRC, ID, ACCOUNT_RENT, vec![0; 165], false),
        mint_account(vec![0; 82]),
        signer(ALICE),
        rent_account(),
    ];
    assert_eq!(run(&mut accounts, &[1]), Err(custom(TokenError::InvalidMint)));

    let mut accounts = vec![
        info(SRC, ID, ACCOUNT_RENT - 1, vec![0; 165], false),
        mint_account(mint_data(Some(MINT_AUTH), 0, 6, None)),
        signer(ALICE),
        rent_account(),
    ];
    assert_eq!(run(&mut accounts, &[1]), Err(custom(TokenError::NotRentExempt)));

    let mut accounts = vec![
        token_account(SRC, token_data(MINT, ALICE, 0, 1)),
        mint_account(mint_data(Some(MINT_AUTH), 0, 6, None)),
        signer(ALICE),
        rent_account(),
    ];
    assert_eq!(run(&mut accounts, &[1]), Err(custom(TokenError::AlreadyInUse)));
}

#[test]
fn initialize_account2_and_3_take_the_owner_from_the_data() {
    let mut data = vec![16u8];
    data.extend_from_slice(&BOB);
    let mut accounts = vec![
        info(SRC, ID, ACCOUNT_RENT, vec![0; 165], false),
        mint_account(mint_data(Some(MINT_AUTH), 0, 6, None)),
        rent_account(),
    ];
    assert_eq!(run(&mut accounts, &data), Ok(None));
    assert_eq!(accounts[0].data, token_data(MINT, BOB, 0, 1));

    data[0] = 18;
    let mut accounts = vec![
        info(SRC, ID, ACCOUNT_RENT, vec![0; 165], false),
        mint_account(mint_data(Some(MINT_AUTH), 0, 6, None)),
    ];
    assert_eq!(run(&mut accounts, &data), Ok(None));
    assert_eq!(accounts[0].data, token_data(MINT, BOB, 0, 1));

    let mut accounts = vec![
        info(SRC, ID, ACCOUNT_RENT, vec![0; 165], false),
        mint_account(mint_data(Some(MINT_AUTH), 0, 6, None)),
    ];
    assert_eq!(run(&mut accounts, &data[..32]), Err(ProgramError::InvalidInstructionData));
    let mut short = data[..32].to_vec();
    short[0] = 16;
    assert_eq!(run(&mut accounts, &short), Err(custom(TokenError::InvalidInstruction)));
}

#[test]
fn initialize_immutable_owner_checks_only() {
    let mut accounts = vec![info(SRC, ID, ACCOUNT_RENT, vec![0; 165], false)];
    assert_eq!(run(&mut accounts, &[22]), Ok(None));
    assert_eq!(accounts[0].data, vec![0; 165]);

    let mut accounts = vec![token_account(SRC, token_data(MINT, ALICE, 0, 1))];
    assert_eq!(run(&mut accounts, &[22]), Err(custom(TokenError::AlreadyInUse)));

    let mut accounts = vec![info(SRC, ID, ACCOUNT_RENT, vec![0; 164], false)];
    assert_eq!(run(&mut accounts, &[22]), Err(ProgramError::InvalidAccountData));
}

// ---------------------------------------------------------------------------
// Transfers.
// ---------------------------------------------------------------------------

#[test]
fn transfer_moves_tokens() {
    let mut accounts = transfer_accounts(1000);
    assert_eq!(run(&mut accounts, &with_amount(3, 100)), Ok(None));
    assert_eq!(amount_of(&accounts[0]), 900);
    assert_eq!(amount_of(&accounts[1]), 100);
}

#[test]
fn transfer_ignores_extra_data_after_the_amount() {
    let mut accounts = transfer_accounts(1000);
    let mut data = with_amount(3, 7);
    data.push(99);
    assert_eq!(run(&mut accounts, &data), Ok(None));
    assert_eq!(amount_of(&accounts[1]), 7);
}

#[test]
fn transfer_to_self_keeps_the_amount() {
    let mut accounts = vec![
        token_account(SRC, token_data(MINT, ALICE, 1000, 1)),
        token_account(SRC, token_data(MINT, ALICE, 1000, 1)),
        signer(ALICE),
    ];
    assert_eq!(run(&mut accounts, &with_amount(3, 100)), Ok(None));
    assert_eq!(amount_of(&accounts[0]), 1000);
    assert_eq!(amount_of(&accounts[1]), 1000);
}

#[test]
fn transfer_errors_leave_accounts_unchanged() {
    let mut accounts = transfer_accounts(50);
    assert_eq!(run(&mut accounts, &with_amount(3, 100)), Err(custom(TokenError::InsufficientFunds)));
    assert_eq!(amount_of(&accounts[0]), 50);

    let mut accounts = transfer_accounts(500);
    accounts[0].data[108] = 2;
    assert_eq!(run(&mut accounts, &with_amount(3, 100)), Err(custom(TokenError::AccountFrozen)));

    let mut accounts = transfer_accounts(500);
    accounts[1].data[0..32].copy_from_slice(&NEW_AUTH);
    assert_eq!(run(&mut accounts, &with_amount(3, 100)), Err(custom(TokenError::MintMismatch)));

    let mut accounts = transfer_accounts(500);
    accounts[2] = signer(BOB);
    assert_eq!(run(&mut accounts, &with_amount(3, 100)), Err(custom(TokenError::OwnerMismatch)));

    let mut accounts = transfer_accounts(500);
    accounts[2].is_signer = false;
    assert_eq!(run(&mut accounts, &with_amount(3, 100)), Err(ProgramError::MissingRequiredSignature));

    let mut accounts = transfer_accounts(500);
    assert_eq!(run(&mut accounts, &[3, 1, 2, 3]), Err(custom(TokenError::InvalidInstruction)));

    let mut accounts = transfer_accounts(500);
    accounts.pop();
    assert_eq!(run(&mut accounts, &with_amount(3, 1)), Err(ProgramError::NotEnoughAccountKeys));

    let mut accounts = transfer_accounts(500);
    accounts[1].data[108] = 0;
    assert_eq!(run(&mut accounts, &with_amount(3, 1)), Err(ProgramError::InvalidAccountData));
}

#[test]
fn transfer_overflow_of_destination() {
    let mut accounts = transfer_accounts(10);
    accounts[1].data[64..72].copy_from_slice(&u64::MAX.to_le_bytes());
    assert_eq!(run(&mut accounts, &with_amount(3, 1)), Err(custom(TokenError::Overflow)));
}

#[test]
fn transfer_of_zero_needs_token_program_accounts() {
    let mut accounts = transfer_accounts(10);
    accounts[1].owner = BOB;
    assert_eq!(run(&mut accounts, &with_amount(3, 0)), Err(ProgramError::IncorrectProgramId));
}

#[test]
fn transfer_by_delegate_spends_the_allowance() {
    let mut accounts = vec![
        token_account(SRC, with_delegate(token_data(MINT, ALICE, 1000, 1), DELEGATE, 150)),
        token_account(DST, token_data(MINT, BOB, 0, 1)),
        signer(DELEGATE),
    ];
    assert_eq!(run(&mut accounts, &with_amount(3, 100)), Ok(None));
    assert_eq!(amount_of(&accounts[0]), 900);
    assert_eq!(u64_at(&accounts[0].data, 121), 50);
    assert_eq!(accounts[0].data[72], 1);

    assert_eq!(run(&mut accounts, &with_amount(3, 60)), Err(custom(TokenError::InsufficientFunds)));
    assert_eq!(run(&mut accounts, &with_amount(3, 50)), Ok(None));
    assert_eq!(u64_at(&accounts[0].data, 121), 0);
    assert_eq!(accounts[0].data[72], 0);
    assert_eq!(amount_of(&accounts[1]), 150);
}

#[test]
fn transfer_of_native_tokens_moves_lamports() {
    let reserve = ACCOUNT_RENT;
    let mut accounts = vec![
        info(SRC, ID, reserve + 300, with_native(token_data(NATIVE_MINT, ALICE, 300, 1), reserve), false),
        info(DST, ID, reserve, with_native(token_data(NATIVE_MINT, BOB, 0, 1), reserve), false),
        signer(ALICE),
    ];
    assert_eq!(run(&mut accounts, &with_amount(3, 200)), Ok(None));
    assert_eq!(accounts[0].lamports, reserve + 100);
    assert_eq!(accounts[1].lamports, reserve + 200);
    assert_eq!(amount_of(&accounts[0]), 100);
    assert_eq!(amount_of(&accounts[1]), 200);
}

#[test]
fn transfer_checked_checks_mint_and_decimals() {
    let mut accounts = vec![
        token_account(SRC, token_data(MINT, ALICE, 1000, 1)),
        mint_account(mint_data(Some(MINT_AUTH), 1000, 6, None)),
        token_account(DST, token_data(MINT, BOB, 0, 1)),
        signer(ALICE),
    ];
    let mut data = with_amount(12, 250);
    data.push(6);
    assert_eq!(run(&mut accounts, &data), Ok(None));
    assert_eq!(amount_of(&accounts[0]), 750);
    assert_eq!(amount_of(&accounts[2]), 250);

    data[9] = 5;
    assert_eq!(run(&mut accounts, &data), Err(custom(TokenError::MintDecimalsMismatch)));
    assert_eq!(run(&mut accounts, &data[..9]), Err(custom(TokenError::InvalidInstruction)));
}

#[test]
fn multisig_owner_authorizes_a_transfer() {
    let mut ms = vec![0u8; 355];
    ms[0] = 2;
    ms[1] = 3;
    ms[2] = 1;
    ms[3..35].copy_from_slice(&ALICE);
    ms[35..67].copy_from_slice(&BOB);
    ms[67..99].copy_from_slice(&DELEGATE);
    let make = |bob_signs: bool| {
        let mut b = signer(BOB);
        b.is_signer = bob_signs;
        vec![
            token_account(SRC, token_data(MINT, MULTISIG, 1000, 1)),
            token_account(DST, token_data(MINT, BOB, 0, 1)),
            info(MULTISIG, ID, MULTISIG_RENT, ms.clone(), false),
            signer(ALICE),
            b,
        ]
    };
    let mut accounts = make(true);
    assert_eq!(run(&mut accounts, &with_amount(3, 10)), Ok(None));
    assert_eq!(amount_of(&accounts[1]), 10);

    let mut accounts = make(false);
    assert_eq!(run(&mut accounts, &with_amount(3, 10)), Err(ProgramError::MissingRequiredSignature));

    let mut accounts = make(true);
    accounts.pop();
    assert_eq!(run(&mut accounts, &with_amount(3, 10)), Err(ProgramError::MissingRequiredSignature));
}

// ---------------------------------------------------------------------------
// Minting and burning.
// ---------------------------------------------------------------------------

fn mint_to_accounts(auth: Option<[u8; 32]>) -> Vec<AccountInfo> {
    vec![
        mint_account(mint_data(auth, 100, 6, None)),
        token_account(DST, token_data(MINT, BOB, 5, 1)),
        signer(MINT_AUTH),
    ]
}

#[test]
fn mint_to_raises_supply_and_amount() {
    let mut accounts = mint_to_accounts(Some(MINT_AUTH));
    assert_eq!(run(&mut accounts, &with_amount(7, 42)), Ok(None));
    assert_eq!(supply_of(&accounts[0]), 142);
    assert_eq!(amount_of(&accounts[1]), 47);
}

#[test]
fn mint_to_errors() {
    let mut accounts = mint_to_accounts(None);
    assert_eq!(run(&mut accounts, &with_amount(7, 42)), Err(custom(TokenError::FixedSupply)));

    let mut accounts = mint_to_accounts(Some(MINT_AUTH));
    accounts[0].data[36..44].copy_from_slice(&u64::MAX.to_le_bytes());
    assert_eq!(run(&mut accounts, &with_amount(7, 1)), Err(custom(TokenError::Overflow)));

    let mut accounts = mint_to_accounts(Some(MINT_AUTH));
    assert_eq!(run(&mut accounts, &[7, 1, 2]), Err(custom(TokenError::InvalidInstruction)));

    let mut accounts = mint_to_accounts(Some(MINT_AUTH));
    accounts[1] = token_account(DST, with_native(token_data(MINT, BOB, 5, 1), 1));
    assert_eq!(run(&mut accounts, &with_amount(7, 1)), Err(custom(TokenError::NativeNotSupported)));
}

#[test]
fn mint_to_checked_checks_decimals() {
    let mut accounts = mint_to_accounts(Some(MINT_AUTH));
    let mut data = with_amount(14, 8);
    data.push(6);
    assert_eq!(run(&mut accounts, &data), Ok(None));
    assert_eq!(supply_of(&accounts[0]), 108);
    data[9] = 2;
    assert_eq!(run(&mut accounts, &data), Err(custom(TokenError::MintDecimalsMismatch)));
    assert_eq!(run(&mut accounts, &data[..9]), Err(custom(TokenError::InvalidInstruction)));
}

fn burn_accounts() -> Vec<AccountInfo> {
    vec![
        token_account(SRC, token_data(MINT, ALICE, 80, 1)),
        mint_account(mint_data(Some(MINT_AUTH), 100, 6, None)),
        signer(ALICE),
    ]
}

#[test]
fn burn_lowers_amount_and_supply() {
    let mut accounts = burn_accounts();
    assert_eq!(run(&mut accounts, &with_amount(8, 30)), Ok(None));
    assert_eq!(amount_of(&accounts[0]), 50);
    assert_eq!(supply_of(&accounts[1]), 70);

    assert_eq!(run(&mut accounts, &with_amount(8, 51)), Err(custom(TokenError::InsufficientFunds)));
    let mut data = with_amount(8, 1);
    data.push(0);
    assert_eq!(run(&mut accounts, &data), Err(custom(TokenError::InvalidInstruction)));
}

#[test]
fn burn_checked_needs_exactly_nine_bytes() {
    let mut accounts = burn_accounts();
    let mut data = with_amount(15, 10);
    data.push(6);
    assert_eq!(run(&mut accounts, &data), Ok(None));
    assert_eq!(supply_of(&accounts[1]), 90);
    data.push(0);
    assert_eq!(run(&mut accounts, &data), Err(ProgramError::InvalidInstructionData));
    data.truncate(10);
    data[9] = 7;
    assert_eq!(run(&mut accounts, &data), Err(custom(TokenError::MintDecimalsMismatch)));
}

// ---------------------------------------------------------------------------
// Delegation, freezing, authorities.
// ---------------------------------------------------------------------------

#[test]
fn approve_then_revoke() {
    let mut accounts = vec![
        token_account(SRC, token_data(MINT, ALICE, 80, 1)),
        signer(DELEGATE),
        signer(ALICE),
    ];
    assert_eq!(run(&mut accounts, &with_amount(4, 25)), Ok(None));
    assert_eq!(accounts[0].data, with_delegate(token_data(MINT, ALICE, 80, 1), DELEGATE, 25));
    assert_eq!(run(&mut accounts, &[4, 1]), Err(ProgramError::InvalidInstructionData));

    let mut revoke_accounts = vec![accounts[0].duplicate(), signer(ALICE)];
    assert_eq!(run(&mut revoke_accounts, &[5]), Ok(None));
    assert_eq!(revoke_accounts[0].data[72], 0);
    assert_eq!(u64_at(&revoke_accounts[0].data, 121), 0);
}

#[test]
fn approve_checked_checks_decimals() {
    let mut accounts = vec![
        token_account(SRC, token_data(MINT, ALICE, 80, 1)),
        mint_account(mint_data(Some(MINT_AUTH), 100, 6, None)),
        signer(DELEGATE),
        signer(ALICE),
    ];
    let mut data = with_amount(13, 5);
    data.push(6);
    assert_eq!(run(&mut accounts, &data), Ok(None));
    assert_eq!(u64_at(&accounts[0].data, 121), 5);
    data[9] = 1;
    assert_eq!(run(&mut accounts, &data), Err(custom(TokenError::MintDecimalsMismatch)));
    assert_eq!(run(&mut accounts, &data[..9]), Err(custom(TokenError::InvalidInstruction)));
}

fn freeze_accounts(state: u8, freeze: Option<[u8; 32]>) -> Vec<AccountInfo> {
    vec![
        token_account(SRC, token_data(MINT, ALICE, 80, state)),
        mint_account(mint_data(Some(MINT_AUTH), 100, 6, freeze)),
        signer(FREEZE_AUTH),
    ]
}

#[test]
fn freeze_then_thaw() {
    let mut accounts = freeze_accounts(1, Some(FREEZE_AUTH));
    let before = accounts[0].data.clone();
    assert_eq!(run(&mut accounts, &[10]), Ok(None));
    assert_eq!(accounts[0].data[108], 2);
    assert_eq!(run(&mut accounts, &[10]), Err(custom(TokenError::InvalidState)));
    assert_eq!(run(&mut accounts, &[11]), Ok(None));
    assert_eq!(accounts[0].data, before);
    assert_eq!(run(&mut accounts, &[11]), Err(custom(TokenError::InvalidState)));
}

#[test]
fn freeze_needs_a_freeze_authority() {
    let mut accounts = freeze_accounts(1, None);
    assert_eq!(run(&mut accounts, &[10]), Err(custom(TokenError::MintCannotFreeze)));
}

#[test]
fn set_authority_changes_the_account_owner() {
    let mut accounts = vec![
        token_account(SRC, with_delegate(token_data(MINT, ALICE, 80, 1), DELEGATE, 9)),
        signer(ALICE),
    ];
    let mut data = vec![6u8, 2, 1];
    data.extend_from_slice(&NEW_AUTH);
    assert_eq!(run(&mut accounts, &data), Ok(None));
    assert_eq!(&accounts[0].data[32..64], &NEW_AUTH);
    assert_eq!(accounts[0].data[72], 0);
    assert_eq!(u64_at(&accounts[0].data, 121), 0);
    assert_eq!(run(&mut accounts, &data), Err(custom(TokenError::OwnerMismatch)));
}

#[test]
fn set_authority_errors() {
    let mut accounts = vec![token_account(SRC, token_data(MINT, ALICE, 80, 1)), signer(ALICE)];
    assert_eq!(run(&mut accounts, &[6, 2, 0, 0]), Err(custom(TokenError::InvalidInstruction)));
    assert_eq!(
        run(&mut accounts, &[6, 0, 0, 0]),
        Err(custom(TokenError::AuthorityTypeNotSupported))
    );
    assert_eq!(run(&mut accounts, &[6, 9, 0, 0]), Err(custom(TokenError::InvalidInstruction)));
    assert_eq!(run(&mut accounts, &[6, 2, 0]), Err(custom(TokenError::InvalidInstruction)));
    assert_eq!(run(&mut accounts, &[6, 2]), Err(custom(TokenError::InvalidInstruction)));
    assert_eq!(run(&mut accounts, &[6, 2, 1, 5]), Err(custom(TokenError::InvalidInstruction)));
    assert_eq!(run(&mut accounts, &[6, 2, 2]), Err(custom(TokenError::InvalidInstruction)));
}

#[test]
fn set_authority_on_a_mint() {
    let mut accounts = vec![mint_account(mint_data(Some(MINT_AUTH), 100, 6, None)), signer(MINT_AUTH)];
    assert_eq!(run(&mut accounts, &[6, 1, 0]), Err(custom(TokenError::MintCannotFreeze)));
    assert_eq!(run(&mut accounts, &[6, 2, 0]), Err(custom(TokenError::AuthorityTypeNotSupported)));
    assert_eq!(run(&mut accounts, &[6, 0, 0]), Ok(None));
    assert_eq!(accounts[0].data[0], 0);
    assert_eq!(run(&mut accounts, &[6, 0, 0]), Err(custom(TokenError::FixedSupply)));
}

// ---------------------------------------------------------------------------
// Closing and lamports.
// ---------------------------------------------------------------------------

#[test]
fn close_account_moves_lamports() {
    let mut accounts = vec![
        token_account(SRC, token_data(MINT, ALICE, 0, 1)),
        info(DST, SYSTEM, 10, Vec::new(), false),
        signer(ALICE),
    ];
    assert_eq!(run(&mut accounts, &[9]), Ok(None));
    assert_eq!(accounts[1].lamports, ACCOUNT_RENT + 10);
    assert_eq!(accounts[0].lamports, 0);
    assert!(accounts[0].data.is_empty());
    assert_eq!(accounts[0].owner, SYSTEM);
}

#[test]
fn close_account_errors() {
    let mut accounts = vec![
        token_account(SRC, token_data(MINT, ALICE, 3, 1)),
        info(DST, SYSTEM, 10, Vec::new(), false),
        signer(ALICE),
    ];
    assert_eq!(run(&mut accounts, &[9]), Err(custom(TokenError::NonNativeHasBalance)));

    let mut accounts = vec![
        token_account(SRC, token_data(MINT, ALICE, 0, 1)),
        token_account(SRC, token_data(MINT, ALICE, 0, 1)),
        signer(ALICE),
    ];
    assert_eq!(run(&mut accounts, &[9]), Err(ProgramError::InvalidAccountData));
}

#[test]
fn sync_native_sets_amount_from_lamports() {
    let reserve = ACCOUNT_RENT;
    let mut accounts = vec![info(
        SRC,
        ID,
        reserve + 777,
        with_native(token_data(NATIVE_MINT, ALICE, 0, 1), reserve),
        false,
    )];
    assert_eq!(run(&mut accounts, &[17]), Ok(None));
    assert_eq!(amount_of(&accounts[0]), 777);

    let mut accounts = vec![token_account(SRC, token_data(MINT, ALICE, 0, 1))];
    assert_eq!(run(&mut accounts, &[17]), Err(custom(TokenError::NonNativeNotSupported)));
}

#[test]
fn rent_minimum_balance_from_sysvar_bytes() {
    assert_eq!(minimum_balance_from_sysvar(&rent(), 82), Ok(MINT_RENT));
    assert_eq!(minimum_balance_from_sysvar(&rent(), 165), Ok(ACCOUNT_RENT));
    let mut one_year = 3480u64.to_le_bytes().to_vec();
    one_year.extend_from_slice(&1.0f64.to_le_bytes());
    one_year.push(50);
    assert_eq!(minimum_balance_from_sysvar(&Ok(one_year.clone()), 82), Ok(730_800));
    let mut shifted = vec![0u8];
    shifted.extend_from_slice(&one_year);
    let unaligned = info(RENT_ID, SYSTEM, 1, shifted[1..].to_vec(), false);
    assert_eq!(minimum_balance_from_account(&unaligned, 82), Ok(730_800));
    assert_eq!(
        minimum_balance_from_sysvar(&Ok(rent_bytes()[..16].to_vec()), 82),
        Err(ProgramError::InvalidArgument)
    );
    assert_eq!(minimum_balance_from_sysvar(&Err(ProgramError::UnsupportedSysvar), 82), Err(ProgramError::UnsupportedSysvar));
}

#[test]
fn sync_native_twice_changes_nothing_more() {
    let reserve = ACCOUNT_RENT;
    let mut accounts = vec![info(
        SRC,
        ID,
        reserve + 4321,
        with_native(token_data(NATIVE_MINT, ALICE, 100, 1), reserve),
        false,
    )];
    assert_eq!(run(&mut accounts, &[17]), Ok(None));
    assert_eq!(amount_of(&accounts[0]), 4321);
    let once = accounts[0].data.clone();
    assert_eq!(run(&mut accounts, &[17]), Ok(None));
    assert_eq!(accounts[0].data, once);
    assert_eq!(accounts[0].lamports, reserve + 4321);
}

#[test]
fn withdraw_excess_lamports_leaves_the_reserve() {
    let mut accounts = vec![
        info(SRC, ID, ACCOUNT_RENT + 1234, token_data(MINT, ALICE, 0, 1), false),
        info(DST, SYSTEM, 6, Vec::new(), false),
        signer(ALICE),
    ];
    assert_eq!(run(&mut accounts, &[38]), Ok(None));
    assert_eq!(accounts[0].lamports, ACCOUNT_RENT);
    assert_eq!(accounts[1].lamports, 1240);

    let mut accounts = vec![
        info(SRC, ID, ACCOUNT_RENT - 1, token_data(MINT, ALICE, 0, 1), false),
        info(DST, SYSTEM, 6, Vec::new(), false),
        signer(ALICE),
    ];
    assert_eq!(run(&mut accounts, &[38]), Err(custom(TokenError::NotRentExempt)));
}

// ---------------------------------------------------------------------------
// Multisig accounts.
// ---------------------------------------------------------------------------

#[test]
fn initialize_multisig_records_the_signers() {
    let mut accounts = vec![
        info(MULTISIG, ID, MULTISIG_RENT, vec![0; 355], false),
        rent_account(),
        signer(ALICE),
        signer(BOB),
    ];
    assert_eq!(run(&mut accounts, &[2, 2]), Ok(None));
    let d = &accounts[0].data;
    assert_eq!((d[0], d[1], d[2]), (2, 2, 1));
    assert_eq!(&d[3..35], &ALICE);
    assert_eq!(&d[35..67], &BOB);

    let mut accounts = vec![
        info(MULTISIG, ID, MULTISIG_RENT, vec![0; 355], false),
        signer(ALICE),
    ];
    assert_eq!(run(&mut accounts, &[19, 1]), Ok(None));
    assert_eq!(accounts[0].data[0], 1);

    let mut accounts = vec![
        info(MULTISIG, ID, MULTISIG_RENT, vec![0; 355], false),
        signer(ALICE),
    ];
    assert_eq!(
        run(&mut accounts, &[19, 12]),
        Err(custom(TokenError::InvalidNumberOfRequiredSigners))
    );
    assert_eq!(run(&mut accounts, &[19]), Err(ProgramError::InvalidInstructionData));
    assert_eq!(run(&mut accounts, &[2]), Err(ProgramError::InvalidInstructionData));
}

// ---------------------------------------------------------------------------
// Return data.
// ---------------------------------------------------------------------------

#[test]
fn get_account_data_size_returns_the_account_length() {
    let mut accounts = vec![mint_account(mint_data(Some(MINT_AUTH), 0, 6, None))];
    assert_eq!(run(&mut accounts, &[21]), Ok(Some(165u64.to_le_bytes().to_vec())));

    let mut accounts = vec![mint_account(vec![0; 82])];
    assert_eq!(run(&mut accounts, &[21]), Err(custom(TokenError::InvalidMint)));
}

#[test]
fn amount_to_ui_amount_formats_with_decimals() {
    let cases: [(u64, u8, &str); 7] = [
        (12345, 2, "123.45"),
        (100, 2, "1"),
        (1, 6, "0.000001"),
        (1_500_000_000, 9, "1.5"),
        (7, 0, "7"),
        (0, 0, "0"),
        (u64::MAX, 0, "18446744073709551615"),
    ];
    for (amount, decimals, expected) in cases {
        let mut accounts = vec![mint_account(mint_data(Some(MINT_AUTH), 0, decimals, None))];
        let r = run(&mut accounts, &with_amount(23, amount));
        assert_eq!(r, Ok(Some(expected.as_bytes().to_vec())));
    }
    let mut accounts = vec![mint_account(mint_data(Some(MINT_AUTH), 0, 2, None))];
    assert_eq!(run(&mut accounts, &[23, 1]), Err(ProgramError::InvalidInstructionData));
}

#[test]
fn ui_amount_to_amount_parses_with_decimals() {
    let cases: [(&str, u8, u64); 6] = [
        ("123.45", 2, 12345),
        ("1", 2, 100),
        ("0.000001", 6, 1),
        ("1.50", 9, 1_500_000_000),
        ("+7", 0, 7),
        (".5", 1, 5),
    ];
    for (ui, decimals, expected) in cases {
        let mut accounts = vec![mint_account(mint_data(Some(MINT_AUTH), 0, decimals, None))];
        let mut data = vec![24u8];
        data.extend_from_slice(ui.as_bytes());
        assert_eq!(run(&mut accounts, &data), Ok(Some(expected.to_le_bytes().to_vec())));
    }
    for (ui, decimals) in [("1.234", 2u8), ("1.2.3", 2), ("", 2), ("abc", 0), (".", 2)] {
        let mut accounts = vec![mint_account(mint_data(Some(MINT_AUTH), 0, decimals, None))];
        let mut data = vec![24u8];
        data.extend_from_slice(ui.as_bytes());
        assert_eq!(run(&mut accounts, &data), Err(ProgramError::InvalidArgument));
    }
    let mut accounts = vec![mint_account(mint_data(Some(MINT_AUTH), 0, 2, None))];
    assert_eq!(run(&mut accounts, &[24, 0xff]), Err(custom(TokenError::InvalidInstruction)));
    let mut uninitialized = vec![mint_account(vec![0; 82])];
    assert_eq!(run(&mut uninitialized, &[24, b'1']), Err(custom(TokenError::InvalidMint)));
}

// ---------------------------------------------------------------------------
// Batches.
// ---------------------------------------------------------------------------

#[test]
fn batch_runs_instructions_in_order() {
    let mut accounts = vec![
        mint_account(mint_data(Some(MINT_AUTH), 0, 6, None)),
        token_account(SRC, token_data(MINT, ALICE, 0, 1)),
        signer(MINT_AUTH),
        token_account(SRC, token_data(MINT, ALICE, 0, 1)),
        token_account(DST, token_data(MINT, BOB, 0, 1)),
        signer(ALICE),
    ];
    let mut data = vec![255u8];
    data.extend_from_slice(&[3, 9]);
    data.extend_from_slice(&with_amount(7, 100));
    data.extend_from_slice(&[3, 9]);
    data.extend_from_slice(&with_amount(3, 40));
    assert_eq!(run(&mut accounts, &data), Ok(None));
    assert_eq!(supply_of(&accounts[0]), 100);
    assert_eq!(amount_of(&accounts[1]), 60);
    assert_eq!(amount_of(&accounts[3]), 60);
    assert_eq!(amount_of(&accounts[4]), 40);
}

#[test]
fn batch_failure_changes_nothing() {
    let mut accounts = vec![
        mint_account(mint_data(Some(MINT_AUTH), 0, 6, None)),
        token_account(SRC, token_data(MINT, ALICE, 0, 1)),
        signer(MINT_AUTH),
        token_account(SRC, token_data(MINT, ALICE, 0, 1)),
        token_account(DST, token_data(MINT, BOB, 0, 1)),
        signer(ALICE),
    ];
    let mut data = vec![255u8];
    data.extend_from_slice(&[3, 9]);
    data.extend_from_slice(&with_amount(7, 100));
    data.extend_from_slice(&[3, 9]);
    data.extend_from_slice(&with_amount(3, 400));
    assert_eq!(run(&mut accounts, &data), Err(custom(TokenError::InsufficientFunds)));
    assert_eq!(supply_of(&accounts[0]), 0);
    assert_eq!(amount_of(&accounts[1]), 0);
}

#[test]
fn batch_header_errors() {
    let mut accounts = transfer_accounts(10);
    assert_eq!(run(&mut accounts, &[255, 3]), Err(custom(TokenError::InvalidInstruction)));
    assert_eq!(run(&mut accounts, &[255, 3, 0]), Err(custom(TokenError::InvalidInstruction)));
    assert_eq!(run(&mut accounts, &[255, 3, 9, 3]), Err(custom(TokenError::InvalidInstruction)));
    let mut data = vec![255u8, 4, 9];
    data.extend_from_slice(&with_amount(3, 1));
    assert_eq!(run(&mut accounts, &data), Err(ProgramError::NotEnoughAccountKeys));
}

#[test]
fn batch_transfer_checks_ownership() {
    let mut accounts = transfer_accounts(10);
    accounts[1].owner = BOB;
    let mut data = vec![255u8, 3, 9];
    data.extend_from_slice(&with_amount(3, 1));
    assert_eq!(run(&mut accounts, &data), Err(ProgramError::IncorrectProgramId));
    let mut plain = transfer_accounts(10);
    plain[1].owner = BOB;
    assert_eq!(run(&mut plain, &with_amount(3, 1)), Ok(None));
}

#[test]
fn batch_keeps_the_last_return_data() {
    let mut accounts = vec![
        mint_account(mint_data(Some(MINT_AUTH), 0, 2, None)),
        mint_account(mint_data(Some(MINT_AUTH), 0, 2, None)),
        info(SRC, ID, ACCOUNT_RENT, vec![0; 165], false),
    ];
    let mut data = vec![255u8, 1, 1, 21, 1, 9];
    data.extend_from_slice(&with_amount(23, 250));
    data.extend_from_slice(&[1, 1, 22]);
    assert_eq!(run(&mut accounts, &data), Ok(Some(b"2.5".to_vec())));
}

#[test]
fn ui_amount_round_trip_on_values() {
    let cases: [(u64, u8); 8] = [
        (1, 0),
        (0, 0),
        (12345, 2),
        (100, 2),
        (1_000_000, 6),
        (5, 19),
        (u64::MAX, 19),
        (u64::MAX, 0),
    ];
    for (amount, decimals) in cases {
        let mut accounts = vec![mint_account(mint_data(Some(MINT_AUTH), 0, decimals, None))];
        let ui = run(&mut accounts, &with_amount(23, amount)).unwrap().unwrap();
        let mut data = vec![24u8];
        data.extend_from_slice(&ui);
        assert_eq!(run(&mut accounts, &data), Ok(Some(amount.to_le_bytes().to_vec())));
    }
}

#[test]
fn zero_amount_with_decimals_is_zero() {
    let mut accounts = vec![mint_account(mint_data(Some(MINT_AUTH), 0, 2, None))];
    assert_eq!(run(&mut accounts, &with_amount(23, 0)), Ok(Some(b"0".to_vec())));
    assert_eq!(run(&mut accounts, &[24, b'0']), Ok(Some(0u64.to_le_bytes().to_vec())));
    assert_eq!(run(&mut accounts, &[24]), Err(ProgramError::InvalidArgument));
}

#[test]
fn multisig_may_require_more_signers_than_it_records() {
    let mut accounts = vec![
        info(MULTISIG, ID, MULTISIG_RENT, vec![0; 355], false),
        signer(ALICE),
    ];
    assert_eq!(run(&mut accounts, &[19, 2]), Ok(None));
    assert_eq!((accounts[0].data[0], accounts[0].data[1]), (2, 1));
}

#[test]
fn try_process_instruction_refuses_inputs_that_panic() {
    let mut accounts = transfer_accounts(10);
    assert_eq!(
        try_process_instruction(&ID, &mut accounts, &[13, 1, 2], &rent()),
        Some(Err(custom(TokenError::InvalidInstruction)))
    );
    assert_eq!(
        try_process_instruction(&ID, &mut accounts, &[14, 1], &rent()),
        Some(Err(custom(TokenError::InvalidInstruction)))
    );

    let mut ms = vec![0u8; 355];
    ms[0] = 1;
    ms[1] = 12;
    ms[2] = 1;
    let mut accounts = vec![token_account(SRC, token_data(MINT, MULTISIG, 1, 1)), info(MULTISIG, ID, MULTISIG_RENT, ms, false)];
    assert_eq!(try_process_instruction(&ID, &mut accounts, &[5], &rent()), None);
    accounts.swap(0, 1);
    assert_eq!(
        try_process_instruction(&ID, &mut accounts, &[5], &rent()),
        Some(Err(ProgramError::InvalidAccountData))
    );

    let mut accounts = vec![mint_account(mint_data(Some(MINT_AUTH), 0, 20, None))];
    assert_eq!(try_process_instruction(&ID, &mut accounts, &with_amount(23, 5), &rent()), None);
    assert_eq!(
        try_process_instruction(&ID, &mut accounts, &with_amount(23, 0), &rent()),
        Some(Ok(Some(b"0".to_vec())))
    );

    let mut huge = (u64::MAX / 100).to_le_bytes().to_vec();
    huge.extend_from_slice(&2.0f64.to_le_bytes());
    huge.push(50);
    let mut accounts = vec![info(MINT, ID, MINT_RENT, vec![0; 82], false)];
    assert_eq!(
        try_process_instruction(&ID, &mut accounts, &initialize_mint_data(20, 2, None), &Ok(huge)),
        None
    );

    let mut accounts = transfer_accounts(10);
    assert_eq!(
        try_process_instruction(&ID, &mut accounts, &with_amount(3, 4), &rent()),
        Some(Ok(None))
    );
    assert_eq!(amount_of(&accounts[1]), 4);

    let mut accounts = transfer_accounts(10);
    accounts.push(mint_account(mint_data(Some(MINT_AUTH), 0, 20, None)));
    let mut data = vec![255u8, 3, 9];
    data.extend_from_slice(&with_amount(3, 4));
    data.extend_from_slice(&[1, 9]);
    data.extend_from_slice(&with_amount(23, 5));
    assert_eq!(try_process_instruction(&ID, &mut accounts, &data, &rent()), None);
    assert_eq!(amount_of(&accounts[1]), 0);
}

#[test]
fn admissibility_checks() {
    let accounts = transfer_accounts(1);
    assert!(authority_valid(&accounts, 2));
    assert!(authority_valid(&accounts, 7));
    let mut ms = vec![0u8; 355];
    ms[1] = 12;
    ms[2] = 1;
    let bad = vec![info(MULTISIG, ID, MULTISIG_RENT, ms, false)];
    assert!(!authority_valid(&bad, 0));
    assert!(rent_account_valid(&[rent_account()], 0, 165));
    assert!(rent_value_valid(&Err(ProgramError::UnsupportedSysvar), 165));
    assert!(rent_valid(&rent_bytes(), 165));
    assert!(rent_valid(&[1, 2, 3], 165));
    let mut huge = u64::MAX.to_le_bytes().to_vec();
    huge.extend_from_slice(&2.0f64.to_le_bytes());
    huge.push(0);
    assert!(!rent_valid(&huge, 0));
    let mut zero = 0u64.to_le_bytes().to_vec();
    zero.extend_from_slice(&2.0f64.to_le_bytes());
    zero.push(0);
    assert!(rent_valid(&zero, 1 << 40));
    // The storage overhead added to the length overflows a `u64`.
    assert!(!rent_valid(&zero, usize::MAX));
}

#[test]
fn batch_of_one_instruction_matches_the_instruction() {
    let mut plain = mint_to_accounts(Some(MINT_AUTH));
    let mut batched = mint_to_accounts(Some(MINT_AUTH));
    let ix = with_amount(7, 42);
    let mut data = vec![255u8, 3, ix.len() as u8];
    data.extend_from_slice(&ix);
    assert_eq!(run(&mut plain, &ix), run(&mut batched, &data));
    for (a, b) in plain.iter().zip(batched.iter()) {
        assert_eq!(a.data, b.data);
        assert_eq!(a.lamports, b.lamports);
    }
}

#[test]
fn initialize_multisig_counts_its_signers() {
    let mut accounts = vec![info(MULTISIG, ID, MULTISIG_RENT, vec![0; 355], false), rent_account()];
    assert_eq!(
        run(&mut accounts, &[2, 1]),
        Err(custom(TokenError::InvalidNumberOfProvidedSigners))
    );
    let mut accounts = vec![info(MULTISIG, ID, MULTISIG_RENT, vec![0; 355], false), rent_account()];
    for k in 0..12u8 {
        accounts.push(signer([20 + k; 32]));
    }
    assert_eq!(
        run(&mut accounts, &[2, 1]),
        Err(custom(TokenError::InvalidNumberOfProvidedSigners))
    );
    accounts.pop();
    assert_eq!(run(&mut accounts, &[2, 11]), Ok(None));
    assert_eq!(accounts[0].data[1], 11);
    assert_eq!(run(&mut accounts, &[2, 1]), Err(custom(TokenError::AlreadyInUse)));
}

#[test]
fn close_account_owned_by_the_incinerator() {
    let mut accounts = vec![
        token_account(SRC, token_data(MINT, INCINERATOR_ID, 0, 1)),
        info(DST, SYSTEM, 10, Vec::new(), false),
        info(BOB, SYSTEM, 1, Vec::new(), false),
    ];
    assert_eq!(run(&mut accounts, &[9]), Err(ProgramError::InvalidAccountData));
    accounts[1] = info(INCINERATOR_ID, SYSTEM, 10, Vec::new(), false);
    assert_eq!(run(&mut accounts, &[9]), Ok(None));
    assert_eq!(accounts[1].lamports, ACCOUNT_RENT + 10);
}

#[test]
fn withdraw_excess_lamports_from_a_mint() {
    let mut accounts = vec![
        info(MINT, ID, MINT_RENT + 99, mint_data(Some(MINT_AUTH), 0, 6, None), false),
        info(DST, SYSTEM, 1, Vec::new(), false),
        signer(MINT_AUTH),
    ];
    assert_eq!(run(&mut accounts, &[38]), Ok(None));
    assert_eq!(accounts[0].lamports, MINT_RENT);
    assert_eq!(accounts[1].lamports, 100);

    let mut accounts = vec![
        info(MINT, ID, MINT_RENT + 99, mint_data(None, 0, 6, None), false),
        info(DST, SYSTEM, 1, Vec::new(), false),
        signer(MINT_AUTH),
    ];
    assert_eq!(run(&mut accounts, &[38]), Err(custom(TokenError::AuthorityTypeNotSupported)));
}

fn total_lamports(accounts: &[AccountInfo]) -> u128 {
    accounts.iter().map(|a| a.lamports as u128).sum()
}

#[test]
fn instructions_conserve_lamports() {
    let reserve = ACCOUNT_RENT;
    let mut accounts = vec![
        info(SRC, ID, reserve + 300, with_native(token_data(NATIVE_MINT, ALICE, 300, 1), reserve), false),
        info(DST, ID, reserve, with_native(token_data(NATIVE_MINT, BOB, 0, 1), reserve), false),
        signer(ALICE),
    ];
    let before = total_lamports(&accounts);
    assert_eq!(run(&mut accounts, &with_amount(3, 250)), Ok(None));
    assert_eq!(total_lamports(&accounts), before);

    let mut accounts = vec![
        token_account(SRC, token_data(MINT, ALICE, 0, 1)),
        info(DST, SYSTEM, 10, Vec::new(), false),
        signer(ALICE),
    ];
    let before = total_lamports(&accounts);
    assert_eq!(run(&mut accounts, &[9]), Ok(None));
    assert_eq!(total_lamports(&accounts), before);

    let mut accounts = vec![
        info(SRC, ID, ACCOUNT_RENT + 1234, token_data(MINT, ALICE, 0, 1), false),
        info(DST, SYSTEM, 6, Vec::new(), false),
        signer(ALICE),
    ];
    let before = total_lamports(&accounts);
    assert_eq!(run(&mut accounts, &[38]), Ok(None));
    assert_eq!(total_lamports(&accounts), before);
}

#[test]
fn initialize_mint_clears_a_stale_freeze_authority() {
    let mut stale = vec![0u8; 82];
    stale[46] = 1;
    stale[50..82].copy_from_slice(&FREEZE_AUTH);
    let mut accounts = vec![info(MINT, ID, MINT_RENT, stale, false), rent_account()];
    assert_eq!(run(&mut accounts, &initialize_mint_data(0, 6, None)), Ok(None));
    assert_eq!(accounts[0].data[46], 0);
}

#[test]
fn set_authority_takes_two_bytes_without_a_new_authority() {
    let mut accounts = vec![
        token_account(SRC, token_data(MINT, ALICE, 0, 1)),
        signer(ALICE),
    ];
    let mut data = vec![6u8, 3, 1];
    data.extend_from_slice(&NEW_AUTH);
    assert_eq!(run(&mut accounts, &data), Ok(None));
    assert_eq!(accounts[0].data[129], 1);
    assert_eq!(&accounts[0].data[133..165], &NEW_AUTH);
    accounts[1] = signer(NEW_AUTH);
    assert_eq!(run(&mut accounts, &[6, 3, 0]), Ok(None));
    assert_eq!(accounts[0].data[129], 0);
}
