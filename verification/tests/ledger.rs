//! Tests of the ledger itself: constructor, queries, mint and withdraw
//! transitions, their error cases, and the owner-gated parameter updates.

use iabs_token::account::AccountId;
use iabs_token::errors::Error;
use iabs_token::ledger::Ledger;

fn acct(name: &str) -> AccountId {
    AccountId::new(name.as_bytes().to_vec())
}

#[test]
fn new_works() {
    let contract = Ledger::new(
        acct("owner"),
        10_000_000_000_000_000,
        1_000_000_000_000_000_000_000,
    );
    assert_eq!(contract.total_supply(), 0);
    assert_eq!(contract.min_payment(), 10_000_000_000_000_000);
    assert_eq!(contract.mint_amount(), 1_000_000_000_000_000_000_000);
}

#[test]
fn balance_of_works() {
    let contract = Ledger::new(
        acct("owner"),
        10_000_000_000_000_000,
        1_000_000_000_000_000_000_000,
    );
    assert_eq!(contract.balance_of(&acct("alice")), 0);
}

#[test]
fn mint_at_exact_price_succeeds() {
    let mut ledger = Ledger::new(acct("owner"), 10_000_000, 1_000_000_000);
    let ev = ledger.mint(&acct("bob"), 10_000_000).unwrap();
    assert_eq!(ev.to, acct("bob"));
    assert_eq!(ev.amount, 1_000_000_000);
    assert_eq!(ev.payment, 10_000_000);
    assert_eq!(ledger.balance_of(&acct("bob")), 1_000_000_000);
    assert_eq!(ledger.total_supply(), 1_000_000_000);
    assert_eq!(ledger.collected_funds(), 10_000_000);
}

#[test]
fn mint_accumulates_per_account() {
    let mut ledger = Ledger::new(acct("owner"), 10, 100);
    ledger.mint(&acct("alice"), 10).unwrap();
    ledger.mint(&acct("alice"), 25).unwrap();
    ledger.mint(&acct("bob"), 10).unwrap();
    assert_eq!(ledger.balance_of(&acct("alice")), 200);
    assert_eq!(ledger.balance_of(&acct("bob")), 100);
    assert_eq!(ledger.total_supply(), 300);
    assert_eq!(ledger.collected_funds(), 45);
}

#[test]
fn mint_below_price_changes_nothing() {
    let mut ledger = Ledger::new(acct("owner"), 10_000_000, 1_000_000_000);
    ledger.mint(&acct("user"), 10_000_000).unwrap();
    let res = ledger.mint(&acct("user"), 9_999_999);
    assert!(matches!(res, Err(Error::InsufficientPayment)));
    assert_eq!(ledger.balance_of(&acct("user")), 1_000_000_000);
    assert_eq!(ledger.total_supply(), 1_000_000_000);
    assert_eq!(ledger.collected_funds(), 10_000_000);
}

#[test]
fn mint_supply_overflow_is_refused() {
    let mut ledger = Ledger::new(acct("owner"), 10, u128::MAX);
    ledger.mint(&acct("whale"), 10).unwrap();
    assert_eq!(ledger.balance_of(&acct("whale")), u128::MAX);
    let res = ledger.mint(&acct("whale"), 10);
    assert!(matches!(res, Err(Error::ArithmeticOverflow)));
    assert_eq!(ledger.balance_of(&acct("whale")), u128::MAX);
    assert_eq!(ledger.total_supply(), u128::MAX);
    assert_eq!(ledger.collected_funds(), 10);
}

#[test]
fn mint_collected_funds_overflow_is_refused() {
    let mut ledger = Ledger::new(acct("owner"), 10, 1);
    ledger.mint(&acct("rich"), u128::MAX).unwrap();
    assert_eq!(ledger.collected_funds(), u128::MAX);
    let res = ledger.mint(&acct("rich"), 10);
    assert!(matches!(res, Err(Error::ArithmeticOverflow)));
    assert_eq!(ledger.balance_of(&acct("rich")), 1);
    assert_eq!(ledger.total_supply(), 1);
    assert_eq!(ledger.collected_funds(), u128::MAX);
}

#[test]
fn withdraw_by_non_owner_changes_nothing() {
    let mut ledger = Ledger::new(acct("owner"), 10, 100);
    ledger.mint(&acct("alice"), 10).unwrap();
    let res = ledger.withdraw(&acct("mallory"));
    assert!(matches!(res, Err(Error::Unauthorized)));
    assert_eq!(ledger.collected_funds(), 10);
    assert_eq!(ledger.total_supply(), 100);
}

#[test]
fn withdraw_empties_accumulator_once() {
    let mut ledger = Ledger::new(acct("owner"), 10, 100);
    ledger.mint(&acct("alice"), 15).unwrap();
    let ev = ledger.withdraw(&acct("owner")).unwrap();
    assert_eq!(ev.owner, acct("owner"));
    assert_eq!(ev.amount, 15);
    assert_eq!(ledger.collected_funds(), 0);
    assert_eq!(ledger.balance_of(&acct("alice")), 100);
    assert_eq!(ledger.total_supply(), 100);
    let res = ledger.withdraw(&acct("owner"));
    assert!(matches!(res, Err(Error::NoFundsToWithdraw)));
}

#[test]
fn withdraw_with_nothing_collected_is_refused() {
    let mut ledger = Ledger::new(acct("owner"), 10, 100);
    let res = ledger.withdraw(&acct("owner"));
    assert!(matches!(res, Err(Error::NoFundsToWithdraw)));
}

#[test]
fn set_min_payment_is_owner_gated() {
    let mut ledger = Ledger::new(acct("owner"), 10, 100);
    let res = ledger.set_min_payment(&acct("mallory"), 1);
    assert!(matches!(res, Err(Error::Unauthorized)));
    assert_eq!(ledger.min_payment(), 10);
    ledger.set_min_payment(&acct("owner"), 25).unwrap();
    assert_eq!(ledger.min_payment(), 25);
    let res = ledger.mint(&acct("alice"), 10);
    assert!(matches!(res, Err(Error::InsufficientPayment)));
    ledger.mint(&acct("alice"), 25).unwrap();
    assert_eq!(ledger.balance_of(&acct("alice")), 100);
}

#[test]
fn set_mint_amount_is_owner_gated() {
    let mut ledger = Ledger::new(acct("owner"), 10, 100);
    let res = ledger.set_mint_amount(&acct("mallory"), 7);
    assert!(matches!(res, Err(Error::Unauthorized)));
    assert_eq!(ledger.mint_amount(), 100);
    ledger.set_mint_amount(&acct("owner"), 7).unwrap();
    assert_eq!(ledger.mint_amount(), 7);
    ledger.mint(&acct("alice"), 10).unwrap();
    assert_eq!(ledger.balance_of(&acct("alice")), 7);
}

#[test]
fn transfer_ownership_moves_the_gate() {
    let mut ledger = Ledger::new(acct("owner"), 10, 100);
    ledger.mint(&acct("alice"), 10).unwrap();
    let res = ledger.transfer_ownership(&acct("mallory"), acct("mallory"));
    assert!(matches!(res, Err(Error::Unauthorized)));
    assert_eq!(ledger.owner(), acct("owner"));
    ledger
        .transfer_ownership(&acct("owner"), acct("heir"))
        .unwrap();
    assert_eq!(ledger.owner(), acct("heir"));
    let res = ledger.withdraw(&acct("owner"));
    assert!(matches!(res, Err(Error::Unauthorized)));
    let ev = ledger.withdraw(&acct("heir")).unwrap();
    assert_eq!(ev.amount, 10);
}

#[test]
fn example_scenario() {
    let mut ledger = Ledger::new(acct("O"), 10_000_000, 1_000_000_000);
    assert_eq!(ledger.total_supply(), 0);
    assert_eq!(ledger.collected_funds(), 0);

    ledger.mint(&acct("U"), 10_000_000).unwrap();
    assert_eq!(ledger.balance_of(&acct("U")), 1_000_000_000);
    assert_eq!(ledger.total_supply(), 1_000_000_000);
    assert_eq!(ledger.collected_funds(), 10_000_000);

    let res = ledger.mint(&acct("U"), 5_000_000);
    assert!(matches!(res, Err(Error::InsufficientPayment)));
    assert_eq!(ledger.balance_of(&acct("U")), 1_000_000_000);
    assert_eq!(ledger.total_supply(), 1_000_000_000);
    assert_eq!(ledger.collected_funds(), 10_000_000);

    let res = ledger.withdraw(&acct("attacker"));
    assert!(matches!(res, Err(Error::Unauthorized)));
    assert_eq!(ledger.collected_funds(), 10_000_000);

    let ev = ledger.withdraw(&acct("O")).unwrap();
    assert_eq!(ev.owner, acct("O"));
    assert_eq!(ev.amount, 10_000_000);
    assert_eq!(ledger.collected_funds(), 0);
}
