//! Laws of the token program: what the instructions do to the accounts they
//! succeed on, stated over the processors' specifications.
use crate::account_info::{
    accounts_coherent, keys_well_formed, with_closed, with_data, with_lamports, AccountView,
};
use crate::entrypoint::{instruction_result, process_instruction_result};
use crate::processor::{check_account_owner_result, validate_owner_result};
use crate::state::load_result;
use crate::state::account::Account;
use crate::state::mint::Mint;
use crate::error::{token_error, ProgramError, TokenError};
use crate::native_mint::ID as NATIVE_MINT_ID;
use crate::instruction::AuthorityType;
use crate::processor::amount_to_ui_amount::{
    decimal_digits, format_with_precision, trim_end, ui_amount, zeros,
};
use crate::processor::batch::{
    batch_result, batch_step_result, last_with_key, lemma_last_with_key_range, merge_accounts,
};
use crate::processor::close_account::close_account_result;
use crate::processor::revoke::revoke_result;
use crate::processor::set_authority::{account_after_owner_change, set_authority_result};
use crate::processor::shared::approve::approve_result;
use crate::processor::shared::burn::{burn_result, burn_source_after_authority};
use crate::processor::shared::initialize_account::initialize_account_result;
use crate::processor::shared::initialize_mint::{initialize_mint_args, initialize_mint_result};
use crate::processor::shared::mint_to::mint_to_result;
use crate::processor::shared::toggle_account_state::toggle_account_state_result;
use crate::processor::sync_native::sync_native_result;
use crate::processor::transfer::{transfer_result, transfer_source_after_authority};
use crate::processor::ui_amount_to_amount::{
    digits_value, dot_free, is_digit, lemma_first_dot, parse_u64, strip_plus, ui_amount_value,
    ui_parts,
};
use crate::processor::withdraw_excess_lamports::withdraw_excess_lamports_result;
use crate::state::{
    coption_key_at, key_at, lemma_u64_at_frame, lemma_with_u64, u64_at, with_key_present, with_u64,
};
use crate::state::account::{
    account_amount, account_close_authority, account_delegate, account_delegated_amount,
    account_is_frozen, account_is_native, account_mint, account_native_amount, account_owner, account_state,
    account_with_amount, account_with_delegate, account_with_delegated_amount, account_with_state,
    account_without_delegate,
};
use crate::state::account_state::AccountState;
use crate::state::mint::{
    mint_decimals, mint_freeze_authority, mint_initialized, mint_mint_authority, mint_supply,
};
use vstd::prelude::*;

verus! {

/// Where a transfer's destination account is: after the mint when the
/// instruction is checked.
pub open spec fn transfer_destination(expected_decimals: Option<u8>) -> int {
    if expected_decimals is Some {
        2
    } else {
        1
    }
}

/// The source's data after the authority check keeps the length and the
/// amount.
proof fn lemma_source_after_authority(s: Seq<u8>, by_delegate: bool, self_transfer: bool, amount: u64)
    requires
        s.len() == 165,
    ensures
        transfer_source_after_authority(s, by_delegate, self_transfer, amount).len() == 165,
        account_amount(transfer_source_after_authority(s, by_delegate, self_transfer, amount))
            == account_amount(s),
{
    let left = (u64_at(s, 121) - amount) as u64;
    lemma_with_u64(s, 121, left);
    let s1 = account_with_delegated_amount(s, left);
    lemma_u64_at_frame(s, s1, 64);
    assert(account_without_delegate(s1).len() == 165);
    lemma_u64_at_frame(s1, account_without_delegate(s1), 64);
}

/// A successful transfer between two different accounts moves `amount`
/// tokens: the source holds `amount` fewer, the destination `amount` more, so
/// that the two hold together what they held before.
pub proof fn transfer_moves_tokens(accs: Seq<AccountView>, amount: u64, expected_decimals: Option<u8>)
    requires
        transfer_result(accs, amount, expected_decimals) is Ok,
        accs[0].key != accs[transfer_destination(expected_decimals)].key,
    ensures
        ({
            let after = transfer_result(accs, amount, expected_decimals)->Ok_0;
            let dst = transfer_destination(expected_decimals);
            &&& after.len() == accs.len()
            &&& account_amount(after[0].data) == account_amount(accs[0].data) - amount
            &&& account_amount(after[dst].data) == account_amount(accs[dst].data) + amount
            &&& account_amount(after[0].data) + account_amount(after[dst].data) == account_amount(
                accs[0].data,
            ) + account_amount(accs[dst].data)
        }),
{
    let dst = transfer_destination(expected_decimals);
    let fixed: int = if expected_decimals is Some {
        4
    } else {
        3
    };
    let s = accs[0].data;
    let d = accs[dst].data;
    let auth = accs[fixed - 1];
    let by_delegate = crate::state::account::account_delegate(s) == Some(auth.key);
    let s1 = transfer_source_after_authority(s, by_delegate, false, amount);
    lemma_source_after_authority(s, by_delegate, false, amount);
    if amount > 0 {
        let s2 = account_with_amount(s1, (account_amount(s) - amount) as u64);
        let d2 = account_with_amount(d, (account_amount(d) + amount) as u64);
        lemma_with_u64(s1, 64, (account_amount(s) - amount) as u64);
        lemma_with_u64(d, 64, (account_amount(d) + amount) as u64);
        let moved = with_data(with_data(accs, accs[0].key, s2), accs[dst].key, d2);
        assert(moved[0].data == s2);
        assert(moved[dst].data == d2);
    }
}

/// The source's data after a burn's authority check keeps the length and the
/// amount.
proof fn lemma_burn_source_after_authority(s: Seq<u8>, by_delegate: bool, amount: u64)
    requires
        s.len() == 165,
    ensures
        burn_source_after_authority(s, by_delegate, amount).len() == 165,
        account_amount(burn_source_after_authority(s, by_delegate, amount)) == account_amount(s),
{
    lemma_source_after_authority(s, by_delegate, false, amount);
}

/// Minting `amount` tokens raises the mint's supply and the destination's
/// amount by `amount`.
pub proof fn mint_to_raises_supply(accs: Seq<AccountView>, amount: u64, expected_decimals: Option<u8>)
    requires
        accounts_coherent(accs),
        mint_to_result(accs, amount, expected_decimals) is Ok,
    ensures
        ({
            let after = mint_to_result(accs, amount, expected_decimals)->Ok_0;
            &&& after.len() == accs.len()
            &&& mint_supply(after[0].data) == mint_supply(accs[0].data) + amount
            &&& account_amount(after[1].data) == account_amount(accs[1].data) + amount
        }),
{
    let m = accs[0].data;
    let d = accs[1].data;
    assert(accs[0].key != accs[1].key) by {
        if accs[0].key == accs[1].key {
            assert(accs[0] == accs[1]);
        }
    }
    if amount > 0 {
        lemma_with_u64(m, 36, (mint_supply(m) + amount) as u64);
        lemma_with_u64(d, 64, (account_amount(d) + amount) as u64);
    }
}

/// Burning `amount` tokens lowers the source's amount and the mint's supply by
/// `amount`.
pub proof fn burn_lowers_supply(accs: Seq<AccountView>, amount: u64, expected_decimals: Option<u8>)
    requires
        accounts_coherent(accs),
        burn_result(accs, amount, expected_decimals) is Ok,
    ensures
        ({
            let after = burn_result(accs, amount, expected_decimals)->Ok_0;
            &&& after.len() == accs.len()
            &&& account_amount(after[0].data) == account_amount(accs[0].data) - amount
            &&& mint_supply(after[1].data) == mint_supply(accs[1].data) - amount
        }),
{
    let s = accs[0].data;
    let m = accs[1].data;
    let auth = accs[2];
    assert(accs[0].key != accs[1].key) by {
        if accs[0].key == accs[1].key {
            assert(accs[0] == accs[1]);
        }
    }
    let checked = !crate::state::account::account_owned_by_system_or_incinerator(s);
    let by_delegate = checked && account_delegate(s) == Some(auth.key);
    lemma_burn_source_after_authority(s, by_delegate, amount);
    let s1 = burn_source_after_authority(s, by_delegate, amount);
    if amount > 0 {
        lemma_with_u64(s1, 64, (account_amount(s) - amount) as u64);
        lemma_with_u64(m, 36, (mint_supply(m) - amount) as u64);
    }
}

/// Approving makes the delegate account the source's delegate for `amount`
/// tokens.
pub proof fn approve_sets_delegate(accs: Seq<AccountView>, amount: u64, expected_decimals: Option<u8>)
    requires
        keys_well_formed(accs),
        approve_result(accs, amount, expected_decimals) is Ok,
    ensures
        ({
            let after = approve_result(accs, amount, expected_decimals)->Ok_0;
            let delegate: int = if expected_decimals is Some {
                2
            } else {
                1
            };
            &&& after.len() == accs.len()
            &&& account_delegate(after[0].data) == Some(accs[delegate].key)
            &&& account_delegated_amount(after[0].data) == amount
        }),
{
    let fixed: int = if expected_decimals is Some {
        4
    } else {
        3
    };
    let s = accs[0].data;
    let k = accs[fixed - 2].key;
    let s1 = account_with_delegate(s, k);
    assert(accs[fixed - 2].key.len() == 32);
    assert(s1.subrange(76, 108) =~= k);
    lemma_with_u64(s1, 121, amount);
    let s2 = account_with_delegated_amount(s1, amount);
    assert(s2.subrange(76, 108) =~= s1.subrange(76, 108));
}

/// Revoking clears the source's delegate and its allowance.
pub proof fn revoke_clears_delegate(accs: Seq<AccountView>)
    requires
        revoke_result(accs) is Ok,
    ensures
        ({
            let after = revoke_result(accs)->Ok_0;
            &&& after.len() == accs.len()
            &&& account_delegate(after[0].data) == None::<Seq<u8>>
            &&& account_delegated_amount(after[0].data) == 0
        }),
{
    let s = accs[0].data;
    lemma_with_u64(account_without_delegate(s), 121, 0);
}

/// Freezing leaves the account frozen, thawing leaves it initialized; nothing
/// else of its data changes.
pub proof fn toggle_sets_state(accs: Seq<AccountView>, freeze: bool)
    requires
        toggle_account_state_result(accs, freeze) is Ok,
    ensures
        ({
            let after = toggle_account_state_result(accs, freeze)->Ok_0;
            &&& after.len() == accs.len()
            &&& account_state(after[0].data) == Ok::<AccountState, ProgramError>(
                if freeze {
                    AccountState::Frozen
                } else {
                    AccountState::Initialized
                },
            )
            &&& after[0].data == account_with_state(accs[0].data, if freeze {
                AccountState::Frozen
            } else {
                AccountState::Initialized
            })
        }),
{
}

/// Thawing an account that was just frozen gives back the accounts as they
/// were before the freeze.
pub proof fn thaw_undoes_freeze(accs: Seq<AccountView>)
    requires
        accounts_coherent(accs),
        toggle_account_state_result(accs, true) is Ok,
        toggle_account_state_result(toggle_account_state_result(accs, true)->Ok_0, false) is Ok,
    ensures
        toggle_account_state_result(toggle_account_state_result(accs, true)->Ok_0, false)->Ok_0
            == accs,
{
    let frozen = toggle_account_state_result(accs, true)->Ok_0;
    let thawed = toggle_account_state_result(frozen, false)->Ok_0;
    let s = accs[0].data;
    let s1 = account_with_state(s, AccountState::Frozen);
    let s2 = account_with_state(s1, AccountState::Initialized);
    assert(s[108] == 1);
    assert(s2 =~= s);
    assert(frozen[0].key == accs[0].key);
    assert forall|i: int| 0 <= i < accs.len() implies thawed[i] == accs[i] by {
        if accs[i].key == accs[0].key {
            assert(accs[i] == accs[0]);
            assert(frozen[i].data == s1);
        }
    }
    assert(thawed =~= accs);
}

/// Closing moves all of the source's lamports to the destination and empties
/// the source.
pub proof fn close_moves_lamports(accs: Seq<AccountView>)
    requires
        close_account_result(accs) is Ok,
    ensures
        ({
            let after = close_account_result(accs)->Ok_0;
            &&& after.len() == accs.len()
            &&& after[1].lamports == accs[1].lamports + accs[0].lamports
            &&& after[0].lamports == 0
            &&& after[0].data.len() == 0
        }),
{
}

/// Syncing a native account sets its amount to its lamports above the
/// rent-exempt reserve.
pub proof fn sync_native_matches_lamports(accs: Seq<AccountView>)
    requires
        sync_native_result(accs) is Ok,
    ensures
        ({
            let after = sync_native_result(accs)->Ok_0;
            &&& after.len() == accs.len()
            &&& account_native_amount(accs[0].data) is Some
            &&& account_amount(after[0].data) == accs[0].lamports - account_native_amount(
                accs[0].data,
            )->0
        }),
{
    let s = accs[0].data;
    let reserve = account_native_amount(s)->0;
    lemma_with_u64(s, 64, (accs[0].lamports - reserve) as u64);
}

/// Syncing is idempotent: right after a successful sync, syncing the same
/// accounts again succeeds and changes nothing.
pub proof fn sync_native_idempotent(accs: Seq<AccountView>)
    requires
        sync_native_result(accs) is Ok,
    ensures
        sync_native_result(sync_native_result(accs)->Ok_0) == sync_native_result(accs),
{
    let a = accs[0];
    let s = a.data;
    let v = (a.lamports - account_native_amount(s)->0) as u64;
    let s1 = account_with_amount(s, v);
    let after = with_data(accs, a.key, s1);
    lemma_with_u64(s, 64, v);
    lemma_with_u64(s1, 64, v);
    assert(with_u64(s1, 64, v) =~= s1);
    assert(after[0] == AccountView { data: s1, ..a });
    assert(s1[108] == s[108] && s1[109] == s[109]);
    assert(s1.subrange(113, 121) =~= s.subrange(113, 121));
    assert(with_data(after, a.key, s1) =~= after);
}

/// Setting an optional key at `off` reads back as that key.
proof fn lemma_with_key_present(d: Seq<u8>, off: int, k: Seq<u8>)
    requires
        0 <= off,
        off + 36 <= d.len(),
        k.len() == 32,
    ensures
        coption_key_at(with_key_present(d, off, k), off) == Some(k),
        with_key_present(d, off, k).len() == d.len(),
        forall|i: int|
            0 <= i < d.len() && !(off <= i < off + 36) ==> #[trigger] with_key_present(d, off, k)[i]
                == d[i],
{
    assert(with_key_present(d, off, k).subrange(off + 4, off + 36) =~= k);
}

/// Setting an authority makes it the new one: for a token account the owner
/// (which also clears the delegate, its allowance and, for a native account,
/// the close authority) or the close authority; for a mint the mint or the
/// freeze authority.
pub proof fn set_authority_sets_authority(
    accs: Seq<AccountView>,
    authority_type: AuthorityType,
    new_authority: Option<Seq<u8>>,
)
    requires
        new_authority matches Some(k) ==> k.len() == 32,
        set_authority_result(accs, authority_type, new_authority) is Ok,
    ensures
        ({
            let after = set_authority_result(accs, authority_type, new_authority)->Ok_0;
            let d = after[0].data;
            &&& after.len() == accs.len()
            &&& authority_type == AuthorityType::AccountOwner ==> {
                &&& new_authority == Some(account_owner(d))
                &&& account_delegate(d) == None::<Seq<u8>>
                &&& account_delegated_amount(d) == 0
                &&& account_is_native(accs[0].data) ==> account_close_authority(d) == None::<
                    Seq<u8>,
                >
            }
            &&& authority_type == AuthorityType::CloseAccount ==> account_close_authority(d)
                == new_authority
            &&& authority_type == AuthorityType::MintTokens ==> mint_mint_authority(d)
                == new_authority
            &&& authority_type == AuthorityType::FreezeAccount ==> mint_freeze_authority(d)
                == new_authority
        }),
{
    let d = accs[0].data;
    match authority_type {
        AuthorityType::AccountOwner => {
            let k = new_authority->0;
            let s0 = crate::state::account::account_with_owner(d, k);
            crate::state::lemma_with_key(d, 32, k);
            let s1 = account_without_delegate(s0);
            lemma_with_u64(s1, 121, 0);
            let s2 = account_with_delegated_amount(s1, 0);
            let s3 = account_after_owner_change(d, k);
            crate::state::lemma_key_at_frame(s0, s2, 32);
            if account_is_native(d) {
                crate::state::lemma_key_at_frame(s2, s3, 32);
                lemma_u64_at_frame(s2, s3, 121);
            }
        },
        AuthorityType::CloseAccount => {
            if new_authority is Some {
                lemma_with_key_present(d, 129, new_authority->0);
            }
        },
        AuthorityType::MintTokens => {
            if new_authority is Some {
                lemma_with_key_present(d, 0, new_authority->0);
            }
        },
        AuthorityType::FreezeAccount => {
            if new_authority is Some {
                lemma_with_key_present(d, 46, new_authority->0);
            }
        },
    }
}

/// Initializing a mint leaves it initialized with the decimals and the mint
/// authority of the instruction data, and the freeze authority if the data has
/// one (no freeze authority otherwise).
pub proof fn initialize_mint_sets_fields(
    accs: Seq<AccountView>,
    data: Seq<u8>,
    rent_sysvar_account_provided: bool,
    rent_sysvar: Result<Seq<u8>, ProgramError>,
)
    requires
        initialize_mint_result(accs, data, rent_sysvar_account_provided, rent_sysvar) is Ok,
    ensures
        ({
            let after = initialize_mint_result(
                accs,
                data,
                rent_sysvar_account_provided,
                rent_sysvar,
            )->Ok_0;
            let args = initialize_mint_args(data)->Ok_0;
            let m = after[0].data;
            &&& after.len() == accs.len()
            &&& mint_initialized(m) == Ok::<bool, ProgramError>(true)
            &&& mint_decimals(m) == args.0
            &&& mint_mint_authority(m) == Some(args.1)
            &&& mint_freeze_authority(m) == args.2
        }),
{
    let args = initialize_mint_args(data)->Ok_0;
    let m = accs[0].data;
    let m0 = crate::state::mint::mint_with_initialized(m);
    lemma_with_key_present(m0, 0, args.1);
    let m1 = crate::state::mint::mint_with_mint_authority(m0, args.1);
    let m2 = crate::state::mint::mint_with_decimals(m1, args.0);
    assert(m2.subrange(4, 36) =~= m1.subrange(4, 36));
    assert(m2.subrange(50, 82) =~= m.subrange(50, 82));
    if args.2 is Some {
        lemma_with_key_present(m2, 46, args.2->0);
        let m3 = crate::state::mint::mint_with_freeze_authority(m2, args.2->0);
        assert(m3.subrange(4, 36) =~= m2.subrange(4, 36));
    }
}

/// Marking account data native with a reserve and an amount keeps its mint,
/// owner and state.
proof fn lemma_native_fields(d: Seq<u8>, reserve: u64, amount: u64)
    requires
        d.len() == 165,
    ensures
        ({
            let e = account_with_amount(
                crate::state::account::account_with_native_amount(
                    crate::state::account::account_with_native(d, true),
                    reserve,
                ),
                amount,
            );
            &&& key_at(e, 0) == key_at(d, 0)
            &&& key_at(e, 32) == key_at(d, 32)
            &&& e[108] == d[108]
        }),
{
    let d3 = crate::state::account::account_with_native(d, true);
    let d4 = crate::state::account::account_with_native_amount(d3, reserve);
    lemma_with_u64(d3, 113, reserve);
    lemma_with_u64(d4, 64, amount);
    let e = account_with_amount(d4, amount);
    crate::state::lemma_key_at_frame(d, e, 0);
    crate::state::lemma_key_at_frame(d, e, 32);
}

/// Initializing a token account leaves it initialized for the given mint and
/// owner.
pub proof fn initialize_account_sets_fields(
    accs: Seq<AccountView>,
    owner: Option<Seq<u8>>,
    rent_sysvar_account: bool,
    rent_sysvar: Result<Seq<u8>, ProgramError>,
)
    requires
        keys_well_formed(accs),
        owner matches Some(k) ==> k.len() == 32,
        initialize_account_result(accs, owner, rent_sysvar_account, rent_sysvar) is Ok,
    ensures
        ({
            let after = initialize_account_result(
                accs,
                owner,
                rent_sysvar_account,
                rent_sysvar,
            )->Ok_0;
            let d = after[0].data;
            &&& after.len() == accs.len()
            &&& account_mint(d) == accs[1].key
            &&& account_owner(d) == match owner {
                Some(k) => k,
                None => accs[2].key,
            }
            &&& account_state(d) == Ok::<AccountState, ProgramError>(AccountState::Initialized)
        }),
{
    let new = accs[0].data;
    let mint_key = accs[1].key;
    let owner_key = match owner {
        Some(k) => k,
        None => accs[2].key,
    };
    let d0 = account_with_state(new, AccountState::Initialized);
    crate::state::lemma_with_key(d0, 0, mint_key);
    let d1 = crate::state::account::account_with_mint(d0, mint_key);
    crate::state::lemma_with_key(d1, 32, owner_key);
    let d2 = crate::state::account::account_with_owner(d1, owner_key);
    crate::state::lemma_key_at_frame(d1, d2, 0);
    assert(d2[108] == d0[108]);
    if mint_key == crate::native_mint::ID@ {
        let fixed: int = if owner is Some {
            2
        } else {
            3
        };
        let reserve = if rent_sysvar_account {
            crate::rent::rent_account_minimum_balance(accs[fixed], new.len() as usize)
        } else {
            crate::rent::rent_value_minimum_balance(rent_sysvar, new.len() as usize)
        }->Ok_0;
        lemma_native_fields(d2, reserve, (accs[0].lamports - reserve) as u64);
    }
}

// ---------------------------------------------------------------------------
// UI amounts.
// ---------------------------------------------------------------------------

/// Ten to the power `k`.
pub open spec fn pow10(k: nat) -> nat
    decreases k,
{
    if k == 0 {
        1
    } else {
        10 * pow10((k - 1) as nat)
    }
}

/// The decimal digits of `v` are digits, at most `k` of them when `v < 10^k`,
/// and read back as `v`.
proof fn lemma_decimal_digits(v: nat, k: nat)
    requires
        k >= 1,
        v < pow10(k),
    ensures
        1 <= decimal_digits(v).len() <= k,
        forall|i: int|
            0 <= i < decimal_digits(v).len() ==> is_digit(#[trigger] decimal_digits(v)[i]),
        digits_value(decimal_digits(v)) == v,
    decreases v,
{
    let d = decimal_digits(v);
    if v < 10 {
        assert(d.drop_last() =~= Seq::<u8>::empty());
        assert(48 + v < 256);
        assert(d.last() == (48 + v) as u8);
        assert(d.last() - 48 == v);
        assert(digits_value(d.drop_last()) == 0);
        assert(digits_value(d) == digits_value(d.drop_last()) * 10 + (d.last() - 48));
    } else {
        assert(pow10(1) == 10) by {
            reveal_with_fuel(pow10, 2);
        }
        if k == 1 {
            assert(false);
        }
        let p = pow10((k - 1) as nat);
        assert(v / 10 < p) by (nonlinear_arith)
            requires
                v < 10 * p,
        ;
        lemma_decimal_digits(v / 10, (k - 1) as nat);
        assert(d.drop_last() =~= decimal_digits(v / 10));
        assert(v % 10 < 10);
        assert(d.last() == (48 + v % 10) as u8);
        assert(d.last() - 48 == v % 10);
        assert(v == (v / 10) * 10 + v % 10);
        assert(digits_value(d) == digits_value(d.drop_last()) * 10 + (d.last() - 48));
    }
}

/// A string of zeros reads as zero.
proof fn lemma_zeros_value(k: nat)
    ensures
        digits_value(zeros(k)) == 0,
    decreases k,
{
    if k > 0 {
        assert(zeros(k).drop_last() =~= zeros((k - 1) as nat));
        lemma_zeros_value((k - 1) as nat);
    }
}

/// Leading zeros do not change what digits read as.
proof fn lemma_zeros_prefix(k: nat, s: Seq<u8>)
    ensures
        digits_value(zeros(k) + s) == digits_value(s),
    decreases s.len(),
{
    if s.len() == 0 {
        assert(zeros(k) + s =~= zeros(k));
        lemma_zeros_value(k);
    } else {
        assert((zeros(k) + s).drop_last() =~= zeros(k) + s.drop_last());
        lemma_zeros_prefix(k, s.drop_last());
    }
}

/// Trimming `b` from the end leaves a prefix of `s` that does not end in `b`,
/// followed in `s` only by `b`s.
proof fn lemma_trim_end(s: Seq<u8>, b: u8)
    ensures
        trim_end(s, b).len() <= s.len(),
        trim_end(s, b) =~= s.subrange(0, trim_end(s, b).len() as int),
        forall|i: int| trim_end(s, b).len() <= i < s.len() ==> s[i] == b,
        trim_end(s, b).len() > 0 ==> trim_end(s, b).last() != b,
    decreases s.len(),
{
    if s.len() > 0 && s.last() == b {
        lemma_trim_end(s.drop_last(), b);
        assert forall|i: int| trim_end(s, b).len() <= i < s.len() implies s[i] == b by {
            if i < s.len() - 1 {
                assert(s.drop_last()[i] == s[i]);
            }
        }
    }
}

/// Trimming a concatenation trims the tail, and the head only if the whole
/// tail goes.
proof fn lemma_trim_end_concat(a: Seq<u8>, c: Seq<u8>, b: u8)
    ensures
        trim_end(a + c, b) == if trim_end(c, b).len() > 0 {
            a + trim_end(c, b)
        } else {
            trim_end(a, b)
        },
    decreases c.len(),
{
    if c.len() == 0 {
        assert(a + c =~= a);
    } else if c.last() == b {
        assert((a + c).drop_last() =~= a + c.drop_last());
        lemma_trim_end_concat(a, c.drop_last(), b);
    }
}

/// Digits read with an optional plus sign: without one, as they are.
proof fn lemma_parse_digits(s: Seq<u8>)
    requires
        s.len() >= 1,
        forall|i: int| 0 <= i < s.len() ==> is_digit(#[trigger] s[i]),
        digits_value(s) <= u64::MAX,
    ensures
        parse_u64(s) == Some(digits_value(s) as u64),
{
    assert(strip_plus(s) == s);
}

/// The UI string of digits `x` before the point and `f` after it: trailing
/// zeros go, and the point too if nothing follows it; splitting it at its
/// point gives `x` and the trimmed `f` back.
proof fn lemma_ui_string(x: Seq<u8>, f: Seq<u8>)
    requires
        x.len() >= 1,
        forall|i: int| 0 <= i < x.len() ==> is_digit(#[trigger] x[i]),
        forall|i: int| 0 <= i < f.len() ==> is_digit(#[trigger] f[i]),
    ensures
        ({
            let u = trim_end(trim_end(x + seq![46u8] + f, 48u8), 46u8);
            ui_parts(u) == (x, trim_end(f, 48u8), false)
        }),
{
    let dot = seq![46u8];
    let t = trim_end(f, 48u8);
    lemma_trim_end(f, 48u8);
    lemma_trim_end_concat(x + dot, f, 48u8);
    assert((x + dot).last() == 46u8);
    assert(trim_end(x + dot, 48u8) == x + dot);
    let u = trim_end(trim_end(x + dot + f, 48u8), 46u8);
    if t.len() > 0 {
        assert(t.last() == f[t.len() - 1]);
        assert(t.last() != 46u8);
        assert(u == (x + dot) + t);
        lemma_first_dot(u, x.len() as int);
        assert(u.subrange(x.len() as int + 1, u.len() as int) =~= t);
        lemma_first_dot(t, t.len() as int);
        assert(u.take(x.len() as int) =~= x);
        assert(t.take(t.len() as int) =~= t);
    } else {
        assert((x + dot).drop_last() =~= x);
        assert(trim_end(x + dot, 46u8) == trim_end(x, 46u8));
        assert(x.last() != 46u8);
        assert(trim_end(x, 46u8) == x);
        assert(u == x);
        lemma_first_dot(x, x.len() as int);
        assert(x.take(x.len() as int) =~= x);
    }
}

/// The UI string of a nonzero amount with decimals reads back as the amount.
#[verifier::spinoff_prover]
proof fn lemma_ui_round_trip_with_decimals(amount: u64, decimals: u8)
    requires
        0 < decimals < 20,
        amount != 0,
        1 <= decimal_digits(amount as nat).len() <= 20,
        forall|i: int|
            0 <= i < decimal_digits(amount as nat).len() ==> is_digit(
                #[trigger] decimal_digits(amount as nat)[i],
            ),
        digits_value(decimal_digits(amount as nat)) == amount,
    ensures
        ui_amount_value(ui_amount(amount, decimals), decimals) == Ok::<u64, ProgramError>(amount),
{
    let d = decimal_digits(amount as nat);
    let p = decimals as int;
    let padded = if d.len() < p + 1 {
        zeros((p + 1 - d.len()) as nat) + d
    } else {
        d
    };
    let n = padded.len() as int;
    assert(forall|i: int| 0 <= i < n ==> is_digit(#[trigger] padded[i]));
    assert(digits_value(padded) == amount as int) by {
        if d.len() < p + 1 {
            lemma_zeros_prefix((p + 1 - d.len()) as nat, d);
        }
    }
    let x = padded.subrange(0, n - p);
    let f = padded.subrange(n - p, n);
    assert(x + seq![46u8] + f == format_with_precision(amount, decimals));
    lemma_ui_string(x, f);
    let t = trim_end(f, 48u8);
    assert(ui_parts(ui_amount(amount, decimals)) == (x, t, false));
    lemma_trim_end(f, 48u8);
    assert(trim_end(t, 48u8) == t);
    assert(t + zeros((p - t.len()) as nat) =~= f);
    assert(x + f =~= padded);
    assert(x + t + zeros((p - t.len()) as nat) =~= padded);
    lemma_parse_digits(padded);
}

/// Converting an amount to its UI string and back gives the amount, for a mint
/// with fewer than twenty decimals.
pub proof fn ui_amount_round_trip(amount: u64, decimals: u8)
    requires
        decimals < 20,
    ensures
        ui_amount_value(ui_amount(amount, decimals), decimals) == Ok::<u64, ProgramError>(amount),
{
    assert(pow10(20) == 100000000000000000000) by {
        reveal_with_fuel(pow10, 21);
    }
    lemma_decimal_digits(amount as nat, 20);
    let d = decimal_digits(amount as nat);
    if decimals == 0 {
        assert(format_with_precision(amount, 0) == d) by {
            if amount == 0 {
                assert(d =~= seq![48u8]);
            }
        }
        assert(ui_amount(amount, decimals) == d);
        lemma_first_dot(d, d.len() as int);
        assert(ui_parts(d) == (d, Seq::<u8>::empty(), false)) by {
            assert(d.take(d.len() as int) =~= d);
        }
        assert(d + Seq::<u8>::empty() + zeros(0) =~= d);
        lemma_parse_digits(d);
    } else if amount == 0 {
        let u = ui_amount(amount, decimals);
        let s = format_with_precision(amount, decimals);
        assert(s == seq![48u8]);
        assert(s.drop_last() =~= Seq::<u8>::empty());
        assert(trim_end(s, 48u8) == trim_end(s.drop_last(), 48u8));
        assert(trim_end(Seq::<u8>::empty(), 48u8) =~= Seq::<u8>::empty());
        assert(trim_end(Seq::<u8>::empty(), 46u8) =~= Seq::<u8>::empty());
        assert(u == seq![48u8]);
        lemma_first_dot(u, 1);
        assert(ui_parts(u) == (u, Seq::<u8>::empty(), false)) by {
            assert(u.take(1) =~= u);
        }
        let z = zeros((decimals + 1) as nat);
        assert(u + Seq::<u8>::empty() + zeros(decimals as nat) =~= z);
        lemma_zeros_value((decimals + 1) as nat);
        lemma_parse_digits(z);
    } else {
        lemma_ui_round_trip_with_decimals(amount, decimals);
    }
}

/// Ten to a sum of powers is the product of the powers.
proof fn lemma_pow10_add(i: nat, j: nat)
    ensures
        pow10(i + j) == pow10(i) * pow10(j),
        pow10(j) >= 1,
    decreases j,
{
    if j > 0 {
        lemma_pow10_add(i, (j - 1) as nat);
        assert((i + j - 1) as nat == i + (j - 1) as nat);
        assert(pow10(i) * (10 * pow10((j - 1) as nat)) == 10 * (pow10(i) * pow10((j - 1) as nat)))
            by (nonlinear_arith);
    }
}

/// Digits read as a number are not negative.
proof fn lemma_digits_nonneg(s: Seq<u8>)
    requires
        forall|i: int| 0 <= i < s.len() ==> is_digit(#[trigger] s[i]),
    ensures
        digits_value(s) >= 0,
    decreases s.len(),
{
    if s.len() > 0 {
        lemma_digits_nonneg(s.drop_last());
    }
}

/// Digits followed by more digits read as the first number shifted by the
/// length of the second, plus the second.
proof fn lemma_digits_concat(a: Seq<u8>, b: Seq<u8>)
    ensures
        digits_value(a + b) == digits_value(a) * pow10(b.len()) + digits_value(b),
    decreases b.len(),
{
    if b.len() == 0 {
        assert(a + b =~= a);
        assert(pow10(0) == 1);
        assert(digits_value(a) * 1 == digits_value(a));
    } else {
        assert((a + b).drop_last() =~= a + b.drop_last());
        assert((a + b).last() == b.last());
        lemma_digits_concat(a, b.drop_last());
        let p = pow10((b.len() - 1) as nat);
        let va = digits_value(a);
        let vb = digits_value(b.drop_last());
        let l = b.last() - 48;
        assert(pow10(b.len()) == 10 * p);
        assert(digits_value(a + b) == digits_value(a + b.drop_last()) * 10 + l);
        assert(digits_value(b) == vb * 10 + l);
        assert(digits_value(a + b.drop_last()) == va * p + vb);
        assert((va * p + vb) * 10 + l == va * (10 * p) + (vb * 10 + l)) by (nonlinear_arith);
        assert(digits_value(a + b) == va * pow10(b.len()) + digits_value(b));
    }
}

/// A UI amount made of the digits `x`, a point and the digits `f`, with no
/// more digits after the point than the mint's decimals, reads as `x` whole
/// tokens plus `f` in units of `10^-len(f)` tokens: the raw amount
/// `x * 10^decimals + f * 10^(decimals - len(f))`. It is an invalid argument
/// when it has neither digits before the point nor a nonzero digit after it,
/// when `x` and the decimals together exceed the formatted length, or when
/// the amount does not fit in a `u64`.
pub proof fn ui_amount_reads_digits(x: Seq<u8>, f: Seq<u8>, decimals: u8)
    requires
        forall|i: int| 0 <= i < x.len() ==> is_digit(#[trigger] x[i]),
        forall|i: int| 0 <= i < f.len() ==> is_digit(#[trigger] f[i]),
        f.len() <= decimals,
    ensures
        ({
            let v = digits_value(x) * pow10(decimals as nat) + digits_value(f) * pow10(
                (decimals - f.len()) as nat,
            );
            ui_amount_value(x + seq![46u8] + f, decimals) == if (x.len() == 0 && digits_value(f)
                == 0) || x.len() + decimals > 257 || v > u64::MAX {
                Err::<u64, ProgramError>(ProgramError::InvalidArgument)
            } else {
                Ok::<u64, ProgramError>(v as u64)
            }
        }),
{
    let dot = seq![46u8];
    let u = x + dot + f;
    let d = decimals as int;
    lemma_first_dot(u, x.len() as int);
    let rest = u.subrange(x.len() as int + 1, u.len() as int);
    assert(rest =~= f);
    lemma_first_dot(f, f.len() as int);
    assert(u.take(x.len() as int) =~= x);
    assert(f.take(f.len() as int) =~= f);
    assert(ui_parts(u) == (x, f, false));
    let t = trim_end(f, 48u8);
    lemma_trim_end(f, 48u8);
    let k = (f.len() - t.len()) as nat;
    assert(f =~= t + zeros(k));
    assert(forall|i: int| 0 <= i < t.len() ==> is_digit(#[trigger] t[i])) by {
        assert forall|i: int| 0 <= i < t.len() implies is_digit(#[trigger] t[i]) by {
            assert(t[i] == f[i]);
        }
    }
    lemma_digits_concat(t, zeros(k));
    lemma_zeros_value(k);
    lemma_digits_nonneg(x);
    lemma_digits_nonneg(t);
    let tail = (d - t.len()) as nat;
    let tail_f = (d - f.len()) as nat;
    lemma_pow10_add(k, tail_f);
    assert(k + tail_f == tail);
    lemma_pow10_add(t.len(), tail);
    assert(t.len() + tail == d);
    assert(digits_value(f) * pow10(tail_f) == digits_value(t) * pow10(tail)) by (nonlinear_arith)
        requires
            digits_value(f) == digits_value(t) * pow10(k),
            pow10(tail) == pow10(k) * pow10(tail_f),
    ;
    if t.len() > 0 {
        assert(t.last() != 48u8 && is_digit(t.last()));
        lemma_digits_nonneg(t.drop_last());
        assert(digits_value(t) >= 1);
        assert(digits_value(f) >= 1) by (nonlinear_arith)
            requires
                digits_value(f) == digits_value(t) * pow10(k),
                digits_value(t) >= 1,
                pow10(k) >= 1,
        ;
    } else {
        assert(digits_value(t) == 0) by {
            assert(t =~= Seq::<u8>::empty());
        }
        assert(digits_value(f) == 0) by (nonlinear_arith)
            requires
                digits_value(f) == digits_value(t) * pow10(k),
                digits_value(t) == 0,
        ;
    }
    let digits = x + t + zeros(tail);
    lemma_digits_concat(x + t, zeros(tail));
    lemma_zeros_value(tail);
    lemma_digits_concat(x, t);
    assert(digits_value(digits) == digits_value(x) * pow10(decimals as nat) + digits_value(t)
        * pow10(tail)) by (nonlinear_arith)
        requires
            digits_value(digits) == digits_value(x + t) * pow10(tail),
            digits_value(x + t) == digits_value(x) * pow10(t.len()) + digits_value(t),
            pow10(decimals as nat) == pow10(t.len()) * pow10(tail),
    ;
    if !(x.len() == 0 && t.len() == 0) && x.len() + d <= 257 {
        assert(forall|i: int| 0 <= i < digits.len() ==> is_digit(#[trigger] digits[i])) by {
            assert forall|i: int| 0 <= i < digits.len() implies is_digit(#[trigger] digits[i]) by {
                if i < x.len() {
                    assert(digits[i] == x[i]);
                } else if i < x.len() + t.len() {
                    assert(digits[i] == t[i - x.len()]);
                } else {
                    assert(digits[i] == zeros(tail)[i - x.len() - t.len()]);
                }
            }
        }
        assert(digits.len() >= 1);
        assert(strip_plus(digits) == digits) by {
            assert(is_digit(digits[0]));
        }
        if digits_value(digits) <= u64::MAX {
            lemma_parse_digits(digits);
        }
    }
}

/// A UI amount of digits without a point reads as that many whole tokens:
/// `x * 10^decimals`. It is an invalid argument when it is empty, when it
/// and the decimals together exceed the formatted length, or when the amount
/// does not fit in a `u64`.
pub proof fn ui_amount_reads_whole_tokens(x: Seq<u8>, decimals: u8)
    requires
        forall|i: int| 0 <= i < x.len() ==> is_digit(#[trigger] x[i]),
    ensures
        ({
            let v = digits_value(x) * pow10(decimals as nat);
            ui_amount_value(x, decimals) == if x.len() == 0 || x.len() + decimals > 257 || v
                > u64::MAX {
                Err::<u64, ProgramError>(ProgramError::InvalidArgument)
            } else {
                Ok::<u64, ProgramError>(v as u64)
            }
        }),
{
    lemma_first_dot(x, x.len() as int);
    assert(ui_parts(x) == (x, Seq::<u8>::empty(), false));
    let e = Seq::<u8>::empty();
    assert(trim_end(e, 48u8) == e);
    let digits = x + e + zeros(decimals as nat);
    assert(x + e =~= x);
    lemma_digits_concat(x, zeros(decimals as nat));
    lemma_zeros_value(decimals as nat);
    if x.len() > 0 && x.len() + decimals <= 257 {
        assert(forall|i: int| 0 <= i < digits.len() ==> is_digit(#[trigger] digits[i])) by {
            assert forall|i: int| 0 <= i < digits.len() implies is_digit(#[trigger] digits[i]) by {
                if i < x.len() {
                    assert(digits[i] == x[i]);
                } else {
                    assert(digits[i] == zeros(decimals as nat)[i - x.len()]);
                }
            }
        }
        assert(strip_plus(digits) == digits) by {
            assert(is_digit(digits[0]));
        }
        if digits_value(digits) <= u64::MAX {
            lemma_parse_digits(digits);
        }
    }
}

/// Zeros at the end of a UI amount's fractional part do not change what it
/// reads as.
pub proof fn ui_amount_trailing_zero(x: Seq<u8>, f: Seq<u8>, decimals: u8)
    requires
        dot_free(x),
        dot_free(f),
    ensures
        ui_amount_value(x + seq![46u8] + f + seq![48u8], decimals) == ui_amount_value(
            x + seq![46u8] + f,
            decimals,
        ),
{
    let dot = seq![46u8];
    let f0 = f + seq![48u8];
    let u = x + dot + f;
    let u0 = x + dot + f0;
    assert(u0 =~= x + dot + f + seq![48u8]);
    lemma_first_dot(u, x.len() as int);
    lemma_first_dot(u0, x.len() as int);
    assert(u.subrange(x.len() as int + 1, u.len() as int) =~= f);
    assert(u0.subrange(x.len() as int + 1, u0.len() as int) =~= f0);
    lemma_first_dot(f, f.len() as int);
    lemma_first_dot(f0, f0.len() as int);
    assert(u.take(x.len() as int) =~= x);
    assert(u0.take(x.len() as int) =~= x);
    assert(f.take(f.len() as int) =~= f);
    assert(f0.take(f0.len() as int) =~= f0);
    assert(ui_parts(u) == (x, f, false));
    assert(ui_parts(u0) == (x, f0, false));
    assert(f0.drop_last() =~= f);
    assert(trim_end(f0, 48u8) == trim_end(f, 48u8));
}

// ---------------------------------------------------------------------------
// What instructions keep of the account list.
// ---------------------------------------------------------------------------

/// `after` holds the accounts of `accs` in the same positions, with the same
/// keys and signer flags.
pub open spec fn same_accounts(accs: Seq<AccountView>, after: Seq<AccountView>) -> bool {
    &&& after.len() == accs.len()
    &&& forall|i: int|
        #![trigger after[i]]
        0 <= i < accs.len() ==> after[i].key == accs[i].key && after[i].is_signer
            == accs[i].is_signer
}

/// Changing the data of an account by its key keeps the list's accounts and
/// their coherence.
pub broadcast proof fn lemma_with_data_keeps(accs: Seq<AccountView>, key: Seq<u8>, data: Seq<u8>)
    ensures
        same_accounts(accs, #[trigger] with_data(accs, key, data)),
        accounts_coherent(accs) ==> accounts_coherent(with_data(accs, key, data)),
{
}

/// Changing the lamports of an account by its key keeps the list's accounts
/// and their coherence.
pub broadcast proof fn lemma_with_lamports_keeps(accs: Seq<AccountView>, key: Seq<u8>, lamports: u64)
    ensures
        same_accounts(accs, #[trigger] with_lamports(accs, key, lamports)),
        accounts_coherent(accs) ==> accounts_coherent(with_lamports(accs, key, lamports)),
{
}

/// Closing an account by its key keeps the list's accounts and their
/// coherence.
pub broadcast proof fn lemma_with_closed_keeps(accs: Seq<AccountView>, key: Seq<u8>)
    ensures
        same_accounts(accs, #[trigger] with_closed(accs, key)),
        accounts_coherent(accs) ==> accounts_coherent(with_closed(accs, key)),
{
}

/// An instruction changes neither which accounts it was given nor their keys
/// or signer flags, and accounts with the same key stay the same account.
#[verifier::spinoff_prover]
#[verifier::rlimit(60)]
pub proof fn instruction_keeps_accounts(
    accs: Seq<AccountView>,
    data: Seq<u8>,
    rent: Result<Seq<u8>, ProgramError>,
)
    requires
        instruction_result(accs, data, rent) is Ok,
    ensures
        same_accounts(accs, instruction_result(accs, data, rent)->Ok_0.0),
        accounts_coherent(accs) ==> accounts_coherent(
            instruction_result(accs, data, rent)->Ok_0.0,
        ),
{
    broadcast use lemma_with_data_keeps, lemma_with_lamports_keeps, lemma_with_closed_keeps;
}

/// A key held at position `j` is found at `j` or after it.
proof fn lemma_last_with_key_found(s: Seq<AccountView>, key: Seq<u8>, j: int)
    requires
        0 <= j < s.len(),
        s[j].key == key,
    ensures
        last_with_key(s, key) >= j,
    decreases s.len(),
{
    if s.last().key != key {
        lemma_last_with_key_found(s.drop_last(), key, j);
    }
}

/// Writing back accounts that an instruction left, when they are the same
/// accounts and coherent, gives exactly those accounts.
proof fn lemma_merge_same(accs: Seq<AccountView>, w: Seq<AccountView>)
    requires
        same_accounts(accs, w),
        accounts_coherent(w),
    ensures
        merge_accounts(accs, w) == w,
{
    assert forall|i: int| 0 <= i < accs.len() implies merge_accounts(accs, w)[i] == w[i] by {
        let key = accs[i].key;
        assert(w[i].key == key);
        lemma_last_with_key_found(w, key, i);
        lemma_last_with_key_range(w, key);
        let k = last_with_key(w, key);
        assert(w[k] == w[i]);
    }
    assert(merge_accounts(accs, w) =~= w);
}

/// A batch of one instruction that takes all the accounts does what the
/// instruction does, a transfer's source and destination being checked to be
/// owned by the token program as well.
pub proof fn single_instruction_batch(
    accs: Seq<AccountView>,
    ix: Seq<u8>,
    rent: Result<Seq<u8>, ProgramError>,
)
    requires
        accounts_coherent(accs),
        accs.len() < 256,
        1 <= ix.len() < 254,
    ensures
        batch_result(accs, 0, seq![accs.len() as u8, ix.len() as u8] + ix, rent, None)
            == batch_step_result(accs, ix, rent),
{
    let data = seq![accs.len() as u8, ix.len() as u8] + ix;
    assert(data.subrange(2, 2 + ix.len() as int) =~= ix);
    assert(accs.subrange(0, accs.len() as int) =~= accs);
    if batch_step_result(accs, ix, rent) is Ok {
        instruction_keeps_accounts(accs, ix, rent);
        lemma_merge_same(accs, batch_step_result(accs, ix, rent)->Ok_0.0);
    }
}

/// Writing back a window of accounts keeps the list's accounts, and keeps
/// them coherent.
proof fn lemma_merge_keeps(accs: Seq<AccountView>, w: Seq<AccountView>)
    ensures
        same_accounts(accs, merge_accounts(accs, w)),
        accounts_coherent(accs) ==> accounts_coherent(merge_accounts(accs, w)),
{
    let m = merge_accounts(accs, w);
    if accounts_coherent(accs) {
        assert forall|i: int, j: int|
            0 <= i < m.len() && 0 <= j < m.len() && #[trigger] m[i].key == #[trigger] m[j].key
                implies m[i] == m[j] by {
            assert(accs[i].key == accs[j].key);
            assert(accs[i] == accs[j]);
        }
    }
}

/// A batch changes neither which accounts it was given nor their keys or
/// signer flags, and accounts with the same key stay the same account.
pub proof fn batch_keeps_accounts(
    accs: Seq<AccountView>,
    start: int,
    data: Seq<u8>,
    rent: Result<Seq<u8>, ProgramError>,
    ret: Option<Seq<u8>>,
)
    requires
        0 <= start <= accs.len(),
        batch_result(accs, start, data, rent, ret) is Ok,
    ensures
        same_accounts(accs, batch_result(accs, start, data, rent, ret)->Ok_0.0),
        accounts_coherent(accs) ==> accounts_coherent(
            batch_result(accs, start, data, rent, ret)->Ok_0.0,
        ),
    decreases data.len(),
{
    let n = data[0] as int;
    let off = 2 + data[1] as int;
    let window = accs.subrange(start, start + n);
    let ix = data.subrange(2, off);
    let step = batch_step_result(window, ix, rent)->Ok_0;
    let accs2 = merge_accounts(accs, step.0);
    lemma_merge_keeps(accs, step.0);
    let ret2 = if step.1 is Some {
        step.1
    } else {
        ret
    };
    if off != data.len() {
        batch_keeps_accounts(accs2, start + n, data.subrange(off, data.len() as int), rent, ret2);
    }
}

// ---------------------------------------------------------------------------
// Lamports.
// ---------------------------------------------------------------------------

/// The lamports of all the accounts of the list.
pub open spec fn total_lamports(accs: Seq<AccountView>) -> int
    decreases accs.len(),
{
    if accs.len() == 0 {
        0
    } else {
        total_lamports(accs.drop_last()) + accs.last().lamports
    }
}

/// No two positions of the list hold the same key.
pub open spec fn keys_distinct(accs: Seq<AccountView>) -> bool {
    forall|i: int, j: int|
        0 <= i < accs.len() && 0 <= j < accs.len() && i != j ==> #[trigger] accs[i].key
            != #[trigger] accs[j].key
}

/// Changing data keeps every account's lamports.
proof fn lemma_with_data_lamports(accs: Seq<AccountView>, key: Seq<u8>, data: Seq<u8>)
    ensures
        total_lamports(with_data(accs, key, data)) == total_lamports(accs),
    decreases accs.len(),
{
    if accs.len() > 0 {
        assert(with_data(accs, key, data).drop_last() =~= with_data(accs.drop_last(), key, data));
        lemma_with_data_lamports(accs.drop_last(), key, data);
    }
}

/// Changing data keeps the total of the lamports.
pub broadcast proof fn lemma_with_data_total(accs: Seq<AccountView>, key: Seq<u8>, data: Seq<u8>)
    ensures
        #[trigger] total_lamports(with_data(accs, key, data)) == total_lamports(accs),
{
    lemma_with_data_lamports(accs, key, data);
}

/// Giving the account at position `i` a new balance, when keys are distinct,
/// changes the total by the difference.
proof fn lemma_with_lamports_total(accs: Seq<AccountView>, i: int, v: u64)
    requires
        keys_distinct(accs),
        0 <= i < accs.len(),
    ensures
        total_lamports(with_lamports(accs, accs[i].key, v)) == total_lamports(accs)
            - accs[i].lamports + v,
    decreases accs.len(),
{
    let k = accs[i].key;
    let n = accs.len() - 1;
    assert(with_lamports(accs, k, v).drop_last() =~= with_lamports(accs.drop_last(), k, v));
    if i == n {
        assert forall|j: int| 0 <= j < n implies accs.drop_last()[j].key != k by {
            assert(accs[j].key != accs[n].key);
        }
        assert(with_lamports(accs.drop_last(), k, v) =~= accs.drop_last());
    } else {
        assert(accs[n].key != k);
        lemma_with_lamports_total(accs.drop_last(), i, v);
    }
}

/// Closing the account at position `i`, when keys are distinct, takes its
/// lamports out of the total.
proof fn lemma_with_closed_total(accs: Seq<AccountView>, i: int)
    requires
        keys_distinct(accs),
        0 <= i < accs.len(),
    ensures
        total_lamports(with_closed(accs, accs[i].key)) == total_lamports(accs) - accs[i].lamports,
    decreases accs.len(),
{
    let k = accs[i].key;
    let n = accs.len() - 1;
    assert(with_closed(accs, k).drop_last() =~= with_closed(accs.drop_last(), k));
    if i == n {
        assert forall|j: int| 0 <= j < n implies accs.drop_last()[j].key != k by {
            assert(accs[j].key != accs[n].key);
        }
        assert(with_closed(accs.drop_last(), k) =~= accs.drop_last());
    } else {
        assert(accs[n].key != k);
        lemma_with_closed_total(accs.drop_last(), i);
    }
}

/// A transfer between accounts with distinct keys keeps the total of the
/// lamports: for the native mint, what leaves the source reaches the
/// destination.
proof fn lemma_transfer_lamports(accs: Seq<AccountView>, amount: u64, expected_decimals: Option<u8>)
    requires
        keys_distinct(accs),
        transfer_result(accs, amount, expected_decimals) is Ok,
    ensures
        total_lamports(transfer_result(accs, amount, expected_decimals)->Ok_0) == total_lamports(
            accs,
        ),
{
    broadcast use lemma_with_data_total, lemma_with_data_keeps;

    let dst = transfer_destination(expected_decimals);
    let fixed: int = if expected_decimals is Some {
        4
    } else {
        3
    };
    let s = accs[0].data;
    let d = accs[dst].data;
    let by_delegate = account_delegate(s) == Some(accs[fixed - 1].key);
    let s1 = transfer_source_after_authority(s, by_delegate, false, amount);
    let s2 = account_with_amount(s1, (account_amount(s) - amount) as u64);
    let d2 = account_with_amount(d, (account_amount(d) + amount) as u64);
    let moved = with_data(with_data(accs, accs[0].key, s2), accs[dst].key, d2);
    if account_mint(s) == crate::native_mint::ID@ && amount > 0 && accs[0].key != accs[dst].key {
        assert(keys_distinct(moved));
        let m1 = with_lamports(moved, accs[0].key, (accs[0].lamports - amount) as u64);
        lemma_with_lamports_total(moved, 0, (accs[0].lamports - amount) as u64);
        lemma_with_lamports_keeps(moved, accs[0].key, (accs[0].lamports - amount) as u64);
        assert(keys_distinct(m1));
        assert(m1[dst].key == accs[dst].key);
        lemma_with_lamports_total(m1, dst, (accs[dst].lamports + amount) as u64);
    }
}

/// Closing an account moves all its lamports to the destination.
proof fn lemma_close_lamports(accs: Seq<AccountView>)
    requires
        keys_distinct(accs),
        close_account_result(accs) is Ok,
    ensures
        total_lamports(close_account_result(accs)->Ok_0) == total_lamports(accs),
{
    let src = accs[0];
    let dst = accs[1];
    let m = with_lamports(accs, dst.key, (dst.lamports + src.lamports) as u64);
    lemma_with_lamports_total(accs, 1, (dst.lamports + src.lamports) as u64);
    lemma_with_lamports_keeps(accs, dst.key, (dst.lamports + src.lamports) as u64);
    assert(keys_distinct(m));
    assert(m[0].key == src.key);
    lemma_with_closed_total(m, 0);
}

/// Withdrawing excess lamports moves them from the source to the destination.
proof fn lemma_withdraw_lamports(accs: Seq<AccountView>, rent: Result<Seq<u8>, ProgramError>)
    requires
        keys_distinct(accs),
        withdraw_excess_lamports_result(accs, rent) is Ok,
    ensures
        total_lamports(withdraw_excess_lamports_result(accs, rent)->Ok_0) == total_lamports(accs),
{
    let src = accs[0];
    let dst = accs[1];
    let reserve = crate::rent::rent_value_minimum_balance(rent, src.data.len() as usize)->Ok_0;
    let excess = (src.lamports - reserve) as u64;
    let m = with_lamports(accs, src.key, reserve);
    lemma_with_lamports_total(accs, 0, reserve);
    lemma_with_lamports_keeps(accs, src.key, reserve);
    assert(keys_distinct(m));
    assert(m[1].key == dst.key);
    assert(m[1].lamports == dst.lamports);
    lemma_with_lamports_total(m, 1, (dst.lamports + excess) as u64);
}

/// No instruction creates or destroys lamports: on accounts with distinct
/// keys, their total is the same after the instruction.
pub proof fn instruction_conserves_lamports(
    accs: Seq<AccountView>,
    data: Seq<u8>,
    rent: Result<Seq<u8>, ProgramError>,
)
    requires
        keys_distinct(accs),
        instruction_result(accs, data, rent) is Ok,
    ensures
        total_lamports(instruction_result(accs, data, rent)->Ok_0.0) == total_lamports(accs),
{
    broadcast use lemma_with_data_total;

    let d = data[0];
    let rest = data.subrange(1, data.len() as int);
    if d == 3 {
        lemma_transfer_lamports(accs, crate::processor::data_u64(rest), None);
    } else if d == 12 {
        lemma_transfer_lamports(accs, crate::processor::data_u64(rest), Some(rest[8]));
    } else if d == 9 {
        lemma_close_lamports(accs);
    } else if d == 38 {
        lemma_withdraw_lamports(accs, rent);
    }
}

// ---------------------------------------------------------------------------
// Dispatch, authorities and batches.
// ---------------------------------------------------------------------------

/// The discriminators of the regular instructions.
pub open spec fn known_instruction(d: u8) -> bool {
    d <= 24 || d == 38
}

/// Instruction data whose first byte names no instruction is an invalid
/// instruction, and 255 runs a batch of the data after it.
pub proof fn dispatch_of_unknown_and_batch(
    accs: Seq<AccountView>,
    data: Seq<u8>,
    rent: Result<Seq<u8>, ProgramError>,
)
    requires
        data.len() >= 1,
    ensures
        !known_instruction(data[0]) ==> instruction_result(accs, data, rent) == Err::<
            (Seq<AccountView>, Option<Seq<u8>>),
            ProgramError,
        >(ProgramError::Custom(12)),
        !known_instruction(data[0]) && data[0] != 255 ==> process_instruction_result(
            accs,
            data,
            rent,
        ) == Err::<(Seq<AccountView>, Option<Seq<u8>>), ProgramError>(ProgramError::Custom(12)),
        data[0] == 255 ==> process_instruction_result(accs, data, rent) == batch_result(
            accs,
            0,
            data.subrange(1, data.len() as int),
            rent,
            None,
        ),
        data[0] != 255 ==> process_instruction_result(accs, data, rent) == instruction_result(
            accs,
            data,
            rent,
        ),
{
}

/// A transfer succeeds only when its authority is the source's delegate, with
/// enough allowance, or else the source's owner, and the authority is
/// validated with the signers that follow it.
pub proof fn transfer_needs_authority(
    accs: Seq<AccountView>,
    amount: u64,
    expected_decimals: Option<u8>,
)
    requires
        transfer_result(accs, amount, expected_decimals) is Ok,
    ensures
        ({
            let fixed: int = if expected_decimals is Some {
                4
            } else {
                3
            };
            let a = accs[fixed - 1];
            let s = accs[0].data;
            let signers = accs.subrange(fixed, accs.len() as int);
            ||| account_delegate(s) == Some(a.key) && account_delegated_amount(s) >= amount
                && validate_owner_result(a.key, a, signers) is Ok
            ||| account_delegate(s) != Some(a.key) && validate_owner_result(
                account_owner(s),
                a,
                signers,
            ) is Ok
        }),
{
}

/// A transfer fails for insufficient funds only when the amount exceeds the
/// source's balance, or, when the source's delegate spends it, the delegate's
/// allowance: moving the whole balance is never refused for want of funds.
pub proof fn transfer_refused_only_above_balance(
    accs: Seq<AccountView>,
    amount: u64,
    expected_decimals: Option<u8>,
)
    requires
        transfer_result(accs, amount, expected_decimals) == Err::<Seq<AccountView>, ProgramError>(
            token_error(TokenError::InsufficientFunds),
        ),
    ensures
        ({
            let auth = accs[transfer_destination(expected_decimals) + 1];
            ||| account_amount(accs[0].data) < amount
            ||| account_delegate(accs[0].data) == Some(auth.key) && account_delegated_amount(
                accs[0].data,
            ) < amount
        }),
{
}

/// A transfer of more than the source's balance between initialized,
/// unfrozen token accounts is refused for insufficient funds.
pub proof fn transfer_above_balance_refused(
    accs: Seq<AccountView>,
    amount: u64,
    expected_decimals: Option<u8>,
)
    requires
        accs.len() >= transfer_destination(expected_decimals) + 2,
        load_result::<Account>(accs[0].data) is Ok,
        load_result::<Account>(accs[transfer_destination(expected_decimals)].data) is Ok,
        account_is_frozen(accs[0].data) == Ok::<bool, ProgramError>(false),
        account_is_frozen(accs[transfer_destination(expected_decimals)].data) == Ok::<
            bool,
            ProgramError,
        >(false),
        account_amount(accs[0].data) < amount,
    ensures
        transfer_result(accs, amount, expected_decimals) == Err::<Seq<AccountView>, ProgramError>(
            token_error(TokenError::InsufficientFunds),
        ),
{
}

/// A transfer between two different initialized, unfrozen token accounts of
/// the same mint (the given mint with its decimals, when checked), both owned
/// by the token program, authorized by the source's owner or by its delegate
/// within the allowance, succeeds whenever the amount is at most the source's
/// balance and the destination can hold it (and, for wrapped SOL, the
/// lamports can move), and it moves exactly that amount.
pub proof fn transfer_within_balance_succeeds(
    accs: Seq<AccountView>,
    amount: u64,
    expected_decimals: Option<u8>,
)
    requires
        accs.len() >= transfer_destination(expected_decimals) + 2,
        accs[0].key != accs[transfer_destination(expected_decimals)].key,
        load_result::<Account>(accs[0].data) is Ok,
        load_result::<Account>(accs[transfer_destination(expected_decimals)].data) is Ok,
        account_is_frozen(accs[0].data) == Ok::<bool, ProgramError>(false),
        account_is_frozen(accs[transfer_destination(expected_decimals)].data) == Ok::<
            bool,
            ProgramError,
        >(false),
        account_mint(accs[0].data) == account_mint(
            accs[transfer_destination(expected_decimals)].data,
        ),
        expected_decimals is Some ==> accs[1].key == account_mint(accs[0].data) && load_result::<
            Mint,
        >(accs[1].data) is Ok && expected_decimals->0 == mint_decimals(accs[1].data),
        check_account_owner_result(accs[0]) is Ok,
        check_account_owner_result(accs[transfer_destination(expected_decimals)]) is Ok,
        ({
            let auth = accs[transfer_destination(expected_decimals) + 1];
            let signers = accs.subrange(
                transfer_destination(expected_decimals) + 2,
                accs.len() as int,
            );
            if account_delegate(accs[0].data) == Some(auth.key) {
                validate_owner_result(auth.key, auth, signers) is Ok && amount
                    <= account_delegated_amount(accs[0].data)
            } else {
                validate_owner_result(account_owner(accs[0].data), auth, signers) is Ok
            }
        }),
        amount <= account_amount(accs[0].data),
        account_amount(accs[transfer_destination(expected_decimals)].data) + amount <= u64::MAX,
        account_mint(accs[0].data) == NATIVE_MINT_ID@ ==> accs[0].lamports >= amount
            && accs[transfer_destination(expected_decimals)].lamports + amount <= u64::MAX,
    ensures
        transfer_result(accs, amount, expected_decimals) is Ok,
        account_amount(transfer_result(accs, amount, expected_decimals)->Ok_0[0].data)
            == account_amount(accs[0].data) - amount,
        account_amount(
            transfer_result(accs, amount, expected_decimals)->Ok_0[transfer_destination(
                expected_decimals,
            )].data,
        ) == account_amount(accs[transfer_destination(expected_decimals)].data) + amount,
{
    transfer_moves_tokens(accs, amount, expected_decimals);
}

/// Whether an approval succeeds, and with which error it fails, does not
/// depend on the amount approved: an allowance above the balance is allowed.
pub proof fn approve_outcome_ignores_amount(
    accs: Seq<AccountView>,
    a1: u64,
    a2: u64,
    expected_decimals: Option<u8>,
)
    ensures
        approve_result(accs, a1, expected_decimals) is Ok <==> approve_result(
            accs,
            a2,
            expected_decimals,
        ) is Ok,
        approve_result(accs, a1, expected_decimals) is Err ==> approve_result(
            accs,
            a1,
            expected_decimals,
        ) == approve_result(accs, a2, expected_decimals),
{
}

/// Approval by the owner of an initialized, unfrozen token account (of the
/// given mint with its decimals, when checked) succeeds for any amount,
/// whatever the account's balance, and records the delegate with that
/// allowance.
pub proof fn approve_by_owner_succeeds(
    accs: Seq<AccountView>,
    amount: u64,
    expected_decimals: Option<u8>,
)
    requires
        keys_well_formed(accs),
        accs.len() >= transfer_destination(expected_decimals) + 2,
        load_result::<Account>(accs[0].data) is Ok,
        account_is_frozen(accs[0].data) == Ok::<bool, ProgramError>(false),
        expected_decimals is Some ==> accs[1].key == account_mint(accs[0].data) && load_result::<
            Mint,
        >(accs[1].data) is Ok && expected_decimals->0 == mint_decimals(accs[1].data),
        validate_owner_result(
            account_owner(accs[0].data),
            accs[transfer_destination(expected_decimals) + 1],
            accs.subrange(transfer_destination(expected_decimals) + 2, accs.len() as int),
        ) is Ok,
    ensures
        approve_result(accs, amount, expected_decimals) is Ok,
        account_delegate(approve_result(accs, amount, expected_decimals)->Ok_0[0].data) == Some(
            accs[transfer_destination(expected_decimals)].key,
        ),
        account_delegated_amount(approve_result(accs, amount, expected_decimals)->Ok_0[0].data)
            == amount,
{
    approve_sets_delegate(accs, amount, expected_decimals);
}

/// Only the source's owner approves a delegate, validated with the signers
/// that follow it.
pub proof fn approve_needs_owner(accs: Seq<AccountView>, amount: u64, expected_decimals: Option<u8>)
    requires
        approve_result(accs, amount, expected_decimals) is Ok,
    ensures
        ({
            let fixed: int = if expected_decimals is Some {
                4
            } else {
                3
            };
            validate_owner_result(
                account_owner(accs[0].data),
                accs[fixed - 1],
                accs.subrange(fixed, accs.len() as int),
            ) is Ok
        }),
{
}

/// On an initialized mint, a cleared mint or freeze authority cannot be set
/// again, and the authorities of token accounts are not supported.
pub proof fn mint_authorities_stay_cleared(
    accs: Seq<AccountView>,
    authority_type: AuthorityType,
    new_authority: Option<Seq<u8>>,
)
    requires
        accs.len() >= 2,
        accs[0].data.len() == 82,
        load_result::<Mint>(accs[0].data) is Ok,
    ensures
        authority_type == AuthorityType::MintTokens && mint_mint_authority(accs[0].data) is None
            ==> set_authority_result(accs, authority_type, new_authority) == Err::<
            Seq<AccountView>,
            ProgramError,
        >(ProgramError::Custom(5)),
        authority_type == AuthorityType::FreezeAccount && mint_freeze_authority(accs[0].data)
            is None ==> set_authority_result(accs, authority_type, new_authority) == Err::<
            Seq<AccountView>,
            ProgramError,
        >(ProgramError::Custom(16)),
        (authority_type == AuthorityType::AccountOwner || authority_type
            == AuthorityType::CloseAccount) ==> set_authority_result(
            accs,
            authority_type,
            new_authority,
        ) == Err::<Seq<AccountView>, ProgramError>(ProgramError::Custom(15)),
{
}

/// A batch runs its instructions in order: the first one's error is the
/// batch's error, and after a success the rest of the batch runs on the
/// accounts that instruction left.
pub proof fn batch_runs_in_order(
    accs: Seq<AccountView>,
    start: int,
    data: Seq<u8>,
    rent: Result<Seq<u8>, ProgramError>,
    ret: Option<Seq<u8>>,
)
    requires
        data.len() >= 2,
        2 < 2 + data[1] <= data.len(),
        accs.len() - start >= data[0],
    ensures
        ({
            let n = data[0] as int;
            let off = 2 + data[1] as int;
            let step = batch_step_result(accs.subrange(start, start + n), data.subrange(2, off), rent);
            &&& step is Err ==> batch_result(accs, start, data, rent, ret) == Err::<
                (Seq<AccountView>, Option<Seq<u8>>),
                ProgramError,
            >(step->Err_0)
            &&& step is Ok && off < data.len() ==> batch_result(accs, start, data, rent, ret)
                == batch_result(
                merge_accounts(accs, step->Ok_0.0),
                start + n,
                data.subrange(off, data.len() as int),
                rent,
                if step->Ok_0.1 is Some {
                    step->Ok_0.1
                } else {
                    ret
                },
            )
        }),
{
}

} // verus!
