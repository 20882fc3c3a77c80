use sep41_token::balance::BalanceEntry;
use sep41_token::admin::{check_admin, has_administrator, read_administrator, read_state};
use sep41_token::contract::TokenContract;
use sep41_token::metadata::{read_decimal, read_name, read_symbol};
use sep41_token::storage_types::{Context, Event, FrozenStatus, Principal, TokenError};
use sep41_token::store::Store;

const ADMIN: Principal = Principal { id: 1 };
const USER1: Principal = Principal { id: 2 };
const USER2: Principal = Principal { id: 3 };
const USER3: Principal = Principal { id: 4 };
const SPENDER: Principal = Principal { id: 5 };

fn all_signers(sequence: u32) -> Context {
    Context { signers: vec![ADMIN, USER1, USER2, USER3, SPENDER], ledger_sequence: sequence }
}

fn token(max_supply: Option<i128>, mintable: bool, burnable: bool, freezable: bool) -> Store {
    let mut store = Store::new();
    TokenContract::initialize(
        &mut store,
        ADMIN,
        7,
        "Test Token".to_string(),
        "TEST".to_string(),
        max_supply,
        mintable,
        burnable,
        freezable,
    )
    .unwrap();
    store
}

fn minted_token() -> Store {
    let mut store = token(None, true, true, true);
    TokenContract::mint(&mut store, &all_signers(0), USER1, 1000).unwrap();
    store
}

#[test]
fn test_token_basic_functionality() {
    let ctx = all_signers(0);
    let mut store = token(None, true, true, true);

    assert_eq!(TokenContract::name(&store), "Test Token".to_string());
    assert_eq!(TokenContract::symbol(&store), "TEST".to_string());
    assert_eq!(TokenContract::decimals(&store), 7u32);
    assert_eq!(TokenContract::total_supply(&store), Ok(0i128));

    assert_eq!(TokenContract::balance(&store, USER1), 0i128);
    assert_eq!(TokenContract::balance(&store, USER2), 0i128);

    TokenContract::mint(&mut store, &ctx, USER1, 1000).unwrap();
    assert_eq!(TokenContract::balance(&store, USER1), 1000i128);
    assert_eq!(TokenContract::total_supply(&store), Ok(1000i128));

    TokenContract::transfer(&mut store, &ctx, USER1, USER2, 300).unwrap();
    assert_eq!(TokenContract::balance(&store, USER1), 700i128);
    assert_eq!(TokenContract::balance(&store, USER2), 300i128);
    assert_eq!(TokenContract::total_supply(&store), Ok(1000i128));
}

#[test]
fn test_insufficient_balance_transfer() {
    let mut store = token(None, true, true, true);
    let r = TokenContract::transfer(&mut store, &all_signers(0), USER1, USER2, 100);
    assert_eq!(r, Err(TokenError::InsufficientBalance));
}

#[test]
fn mint_credits_and_raises_supply() {
    let mut store = token(None, true, true, true);
    let e = TokenContract::mint(&mut store, &all_signers(0), USER1, 1000);
    assert_eq!(e, Ok(Event::Mint { to: USER1, amount: 1000 }));
    assert_eq!(TokenContract::balance(&store, USER1), 1000);
    assert_eq!(TokenContract::total_supply(&store), Ok(1000));
}

#[test]
fn transfer_moves_balance() {
    let mut store = minted_token();
    let e = TokenContract::transfer(&mut store, &all_signers(0), USER1, USER2, 300);
    assert_eq!(e, Ok(Event::Transfer { from: USER1, to: USER2, amount: 300 }));
    assert_eq!(TokenContract::balance(&store, USER1), 700);
    assert_eq!(TokenContract::balance(&store, USER2), 300);
    assert_eq!(TokenContract::total_supply(&store), Ok(1000));
}

#[test]
fn transfer_over_balance_changes_nothing() {
    let mut store = minted_token();
    let r = TokenContract::transfer(&mut store, &all_signers(0), USER1, USER2, 5000);
    assert_eq!(r, Err(TokenError::InsufficientBalance));
    assert_eq!(TokenContract::balance(&store, USER1), 1000);
    assert_eq!(TokenContract::balance(&store, USER2), 0);
}

#[test]
fn transfer_from_spends_allowance() {
    let mut store = minted_token();
    let ctx = all_signers(10);
    let e = TokenContract::approve(&mut store, &ctx, USER1, SPENDER, 500, 100);
    assert_eq!(e, Ok(Event::Approve { from: USER1, spender: SPENDER, amount: 500, expiration_ledger: 100 }));
    let t = TokenContract::transfer_from(&mut store, &ctx, SPENDER, USER1, USER3, 500);
    assert_eq!(t, Ok(Event::Transfer { from: USER1, to: USER3, amount: 500 }));
    assert_eq!(TokenContract::allowance(&store, &ctx, USER1, SPENDER), 0);
    assert_eq!(TokenContract::balance(&store, USER1), 500);
    assert_eq!(TokenContract::balance(&store, USER3), 500);
    let again = TokenContract::transfer_from(&mut store, &ctx, SPENDER, USER1, USER3, 1);
    assert_eq!(again, Err(TokenError::InsufficientAllowance));
    assert_eq!(TokenContract::balance(&store, USER1), 500);
}

#[test]
fn mint_respects_max_supply() {
    let mut store = token(Some(1000), true, true, true);
    let ctx = all_signers(0);
    assert!(TokenContract::mint(&mut store, &ctx, USER1, 1000).is_ok());
    assert_eq!(TokenContract::mint(&mut store, &ctx, USER1, 1), Err(TokenError::MaxSupplyExceeded));
    assert_eq!(TokenContract::total_supply(&store), Ok(1000));
}

#[test]
fn global_freeze_blocks_movements_not_reads() {
    let mut store = minted_token();
    let ctx = all_signers(0);
    assert_eq!(TokenContract::set_frozen(&mut store, &ctx, true), Ok(Event::SetFrozen { frozen: true }));
    assert_eq!(TokenContract::transfer(&mut store, &ctx, USER1, USER2, 1), Err(TokenError::GloballyFrozen));
    assert_eq!(TokenContract::mint(&mut store, &ctx, USER1, 1), Err(TokenError::GloballyFrozen));
    assert_eq!(TokenContract::burn(&mut store, &ctx, USER1, 1), Err(TokenError::GloballyFrozen));
    TokenContract::approve(&mut store, &ctx, USER1, SPENDER, 10, 100).unwrap();
    assert_eq!(
        TokenContract::transfer_from(&mut store, &ctx, SPENDER, USER1, USER2, 1),
        Err(TokenError::GloballyFrozen)
    );
    assert_eq!(TokenContract::balance(&store, USER1), 1000);
    assert_eq!(TokenContract::total_supply(&store), Ok(1000));
    assert_eq!(TokenContract::name(&store), "Test Token".to_string());
    assert!(TokenContract::is_frozen(&store, USER2));
    TokenContract::set_frozen(&mut store, &ctx, false).unwrap();
    assert!(!TokenContract::is_frozen(&store, USER2));
    assert!(TokenContract::transfer(&mut store, &ctx, USER1, USER2, 1).is_ok());
}

#[test]
fn supply_equals_sum_of_balances() {
    let mut store = minted_token();
    let ctx = all_signers(0);
    TokenContract::transfer(&mut store, &ctx, USER1, USER2, 250).unwrap();
    TokenContract::mint(&mut store, &ctx, USER3, 40).unwrap();
    TokenContract::burn(&mut store, &ctx, USER2, 50).unwrap();
    let sum = TokenContract::balance(&store, USER1)
        + TokenContract::balance(&store, USER2)
        + TokenContract::balance(&store, USER3);
    assert_eq!(TokenContract::total_supply(&store), Ok(sum));
    assert_eq!(sum, 990);
}

#[test]
fn burn_over_balance_is_refused() {
    let mut store = minted_token();
    let ctx = all_signers(0);
    assert_eq!(TokenContract::burn(&mut store, &ctx, USER1, 1001), Err(TokenError::InsufficientBalance));
    assert_eq!(TokenContract::burn(&mut store, &ctx, USER1, 1000), Ok(Event::Burn { from: USER1, amount: 1000 }));
    assert_eq!(TokenContract::balance(&store, USER1), 0);
    assert_eq!(TokenContract::total_supply(&store), Ok(0));
}

#[test]
fn unfreeze_twice_is_a_no_op() {
    let mut store = minted_token();
    let ctx = all_signers(0);
    assert_eq!(TokenContract::freeze(&mut store, &ctx, USER2), Ok(Event::Freeze { account: USER2 }));
    assert!(TokenContract::is_frozen(&store, USER2));
    assert_eq!(TokenContract::transfer(&mut store, &ctx, USER1, USER2, 1), Err(TokenError::AccountFrozen));
    assert_eq!(TokenContract::unfreeze(&mut store, &ctx, USER2), Ok(Event::Unfreeze { account: USER2 }));
    assert!(!TokenContract::is_frozen(&store, USER2));
    assert_eq!(TokenContract::unfreeze(&mut store, &ctx, USER2), Ok(Event::Unfreeze { account: USER2 }));
    assert!(!TokenContract::is_frozen(&store, USER2));
    assert!(TokenContract::transfer(&mut store, &ctx, USER1, USER2, 1).is_ok());
}

#[test]
fn allowance_expires_after_its_ledger() {
    let mut store = minted_token();
    TokenContract::approve(&mut store, &all_signers(10), USER1, SPENDER, 500, 20).unwrap();
    assert_eq!(TokenContract::allowance(&store, &all_signers(20), USER1, SPENDER), 500);
    assert_eq!(TokenContract::allowance(&store, &all_signers(21), USER1, SPENDER), 0);
    assert_eq!(
        TokenContract::transfer_from(&mut store, &all_signers(21), SPENDER, USER1, USER2, 1),
        Err(TokenError::AllowanceExpired)
    );
}

#[test]
fn approve_overwrites_rather_than_adds() {
    let mut store = minted_token();
    let ctx = all_signers(0);
    TokenContract::approve(&mut store, &ctx, USER1, SPENDER, 500, 100).unwrap();
    TokenContract::approve(&mut store, &ctx, USER1, SPENDER, 200, 100).unwrap();
    assert_eq!(TokenContract::allowance(&store, &ctx, USER1, SPENDER), 200);
    assert_eq!(TokenContract::allowance(&store, &ctx, USER2, SPENDER), 0);
}

#[test]
fn self_transfer_keeps_balance() {
    let mut store = minted_token();
    TokenContract::transfer(&mut store, &all_signers(0), USER1, USER1, 400).unwrap();
    assert_eq!(TokenContract::balance(&store, USER1), 1000);
}

#[test]
fn non_positive_amounts_are_refused() {
    let mut store = minted_token();
    let ctx = all_signers(0);
    assert_eq!(TokenContract::mint(&mut store, &ctx, USER1, 0), Err(TokenError::InvalidAmount));
    assert_eq!(TokenContract::burn(&mut store, &ctx, USER1, -1), Err(TokenError::InvalidAmount));
    assert_eq!(TokenContract::transfer(&mut store, &ctx, USER1, USER2, 0), Err(TokenError::InvalidAmount));
    assert_eq!(TokenContract::approve(&mut store, &ctx, USER1, SPENDER, -5, 9), Err(TokenError::InvalidAmount));
    assert_eq!(TokenContract::balance(&store, USER1), 1000);
}

#[test]
fn authorization_is_required() {
    let mut store = minted_token();
    let nobody = Context { signers: vec![], ledger_sequence: 0 };
    assert_eq!(TokenContract::mint(&mut store, &nobody, USER1, 1), Err(TokenError::AuthorizationFailed));
    assert_eq!(TokenContract::transfer(&mut store, &nobody, USER1, USER2, 1), Err(TokenError::AuthorizationFailed));
    assert_eq!(TokenContract::set_admin(&mut store, &nobody, USER1), Err(TokenError::AuthorizationFailed));
    assert_eq!(check_admin(&store, &nobody), Err(TokenError::AuthorizationFailed));
    let only_user1 = Context { signers: vec![USER1], ledger_sequence: 0 };
    assert_eq!(
        TokenContract::transfer_from(&mut store, &only_user1, SPENDER, USER1, USER2, 1),
        Err(TokenError::AuthorizationFailed)
    );
    assert!(TokenContract::transfer(&mut store, &only_user1, USER1, USER2, 1).is_ok());
}

#[test]
fn lifecycle_errors() {
    let mut store = Store::new();
    let ctx = all_signers(0);
    assert!(!has_administrator(&store));
    assert_eq!(read_administrator(&store), Err(TokenError::Uninitialized));
    assert_eq!(read_state(&store).err(), Some(TokenError::Uninitialized));
    assert_eq!(TokenContract::admin(&store), Err(TokenError::Uninitialized));
    assert_eq!(TokenContract::mint(&mut store, &ctx, USER1, 1), Err(TokenError::Uninitialized));
    assert_eq!(TokenContract::transfer(&mut store, &ctx, USER1, USER2, 1), Err(TokenError::Uninitialized));
    assert_eq!(TokenContract::total_supply(&store), Err(TokenError::Uninitialized));
    assert_eq!(read_decimal(&store), 0);
    assert_eq!(read_name(&store), String::new());
    assert_eq!(read_symbol(&store), String::new());
    let bad_cap = TokenContract::initialize(&mut store, ADMIN, 7, String::new(), String::new(), Some(-1), true, true, true);
    assert_eq!(bad_cap, Err(TokenError::InvalidAmount));
    assert!(!has_administrator(&store));
    TokenContract::initialize(&mut store, ADMIN, 7, String::new(), String::new(), None, true, true, true).unwrap();
    let again = TokenContract::initialize(&mut store, USER1, 3, String::new(), String::new(), None, true, true, true);
    assert_eq!(again, Err(TokenError::AlreadyInitialized));
    assert_eq!(TokenContract::admin(&store), Ok(ADMIN));
    assert_eq!(TokenContract::decimals(&store), 7);
}

#[test]
fn disabled_capabilities_are_refused() {
    let mut store = token(None, false, false, false);
    let ctx = all_signers(0);
    assert_eq!(TokenContract::mint(&mut store, &ctx, USER1, 1), Err(TokenError::NotMintable));
    assert_eq!(TokenContract::burn(&mut store, &ctx, USER1, 1), Err(TokenError::NotBurnable));
    assert_eq!(TokenContract::freeze(&mut store, &ctx, USER1), Err(TokenError::NotFreezable));
    assert_eq!(TokenContract::unfreeze(&mut store, &ctx, USER1), Err(TokenError::NotFreezable));
    assert_eq!(TokenContract::set_frozen(&mut store, &ctx, true), Err(TokenError::NotFreezable));
    assert_eq!(TokenContract::is_mintable(&store), Ok(false));
    assert_eq!(TokenContract::is_burnable(&store), Ok(false));
    assert_eq!(TokenContract::is_freezable(&store), Ok(false));
    assert_eq!(TokenContract::max_supply(&store), Ok(None));
}

#[test]
fn supply_overflow_is_refused() {
    let mut store = token(None, true, true, true);
    let ctx = all_signers(0);
    TokenContract::mint(&mut store, &ctx, USER1, i128::MAX).unwrap();
    assert_eq!(TokenContract::mint(&mut store, &ctx, USER2, 1), Err(TokenError::ArithmeticOverflow));
    TokenContract::transfer(&mut store, &ctx, USER1, USER2, i128::MAX).unwrap();
    assert_eq!(TokenContract::balance(&store, USER2), i128::MAX);
}

#[test]
fn set_admin_rotates_the_administrator() {
    let mut store = minted_token();
    let ctx = all_signers(0);
    assert_eq!(TokenContract::set_admin(&mut store, &ctx, USER3), Ok(Event::SetAdmin { new_admin: USER3 }));
    assert_eq!(TokenContract::admin(&store), Ok(USER3));
    assert_eq!(read_state(&store).unwrap().admin, USER3);
    let old_admin = Context { signers: vec![ADMIN], ledger_sequence: 0 };
    assert_eq!(TokenContract::mint(&mut store, &old_admin, USER1, 1), Err(TokenError::AuthorizationFailed));
}

#[test]
fn frozen_sender_or_receiver_blocks_movement() {
    let mut store = minted_token();
    let ctx = all_signers(0);
    TokenContract::freeze(&mut store, &ctx, USER1).unwrap();
    assert_eq!(TokenContract::transfer(&mut store, &ctx, USER1, USER2, 1), Err(TokenError::AccountFrozen));
    assert_eq!(TokenContract::burn(&mut store, &ctx, USER1, 1), Err(TokenError::AccountFrozen));
    assert_eq!(TokenContract::mint(&mut store, &ctx, USER1, 1), Err(TokenError::AccountFrozen));
    assert!(!TokenContract::is_frozen(&store, USER2));
}

#[test]
fn store_records_round_trip() {
    let mut store = minted_token();
    let ctx = all_signers(3);
    TokenContract::transfer(&mut store, &ctx, USER1, USER2, 300).unwrap();
    TokenContract::approve(&mut store, &ctx, USER1, SPENDER, 50, 9).unwrap();
    TokenContract::freeze(&mut store, &ctx, USER3).unwrap();
    let restored = Store::restore(
        read_administrator(&store).ok(),
        store.metadata_record(),
        read_state(&store).ok(),
        store.balance_records(),
        store.allowance_records(),
        store.frozen_records(),
    )
    .unwrap();
    assert_eq!(TokenContract::balance(&restored, USER1), 700);
    assert_eq!(TokenContract::balance(&restored, USER2), 300);
    assert_eq!(TokenContract::allowance(&restored, &ctx, USER1, SPENDER), 50);
    assert!(TokenContract::is_frozen(&restored, USER3));
    assert_eq!(TokenContract::name(&restored), "Test Token".to_string());
    assert_eq!(TokenContract::total_supply(&restored), Ok(1000));
    assert_eq!(store.balance_records().len(), 2);
}

#[test]
fn restore_rejects_inconsistent_records() {
    let store = minted_token();
    let state = read_state(&store).ok();
    let admin = read_administrator(&store).ok();
    let entry = |who: Principal, amount: i128| BalanceEntry { who, amount };
    let short = Store::restore(admin, store.metadata_record(), state, vec![entry(USER1, 999)], vec![], vec![]);
    assert!(short.is_none());
    let twice = Store::restore(
        admin,
        store.metadata_record(),
        state,
        vec![entry(USER1, 500), entry(USER1, 500)],
        vec![],
        vec![],
    );
    assert!(twice.is_none());
    let negative = Store::restore(
        admin,
        store.metadata_record(),
        state,
        vec![entry(USER1, 1001), entry(USER2, -1)],
        vec![],
        vec![],
    );
    assert!(negative.is_none());
    let no_admin = Store::restore(None, store.metadata_record(), state, vec![entry(USER1, 1000)], vec![], vec![]);
    assert!(no_admin.is_none());
    let fine = Store::restore(admin, store.metadata_record(), state, vec![entry(USER1, 1000)], vec![], vec![]);
    assert!(fine.is_some());
    let empty = Store::restore(None, None, None, vec![], vec![], vec![]);
    assert!(empty.is_some());
}

#[test]
fn frozen_status_names_the_blocking_reason() {
    let mut store = minted_token();
    let ctx = all_signers(0);
    assert_eq!(TokenContract::frozen_status(&store, USER1, USER2), FrozenStatus::NotFrozen);
    TokenContract::freeze(&mut store, &ctx, USER2).unwrap();
    assert_eq!(TokenContract::frozen_status(&store, USER1, USER2), FrozenStatus::AccountFrozen(USER2));
    TokenContract::freeze(&mut store, &ctx, USER1).unwrap();
    assert_eq!(TokenContract::frozen_status(&store, USER1, USER2), FrozenStatus::AccountFrozen(USER1));
    TokenContract::set_frozen(&mut store, &ctx, true).unwrap();
    assert_eq!(TokenContract::frozen_status(&store, USER1, USER2), FrozenStatus::GloballyFrozen);
}
