//! External withdrawals out of the escrow account.

use shade::account::MerchantAccount;
use shade::auth::AuthSet;
use shade::errors::{AccountError, TokenError};
use shade::events::{AccountEvent, WithdrawalToEvent};
use shade::token::TokenLedger;

const MERCHANT: u64 = 10;
const MANAGER: u64 = 20;
const ACCOUNT_ADDR: u64 = 200;
const TOKEN: u64 = 50;
const RECIPIENT: u64 = 40;
const RANDOM: u64 = 99;

fn setup_initialized_account() -> (MerchantAccount, TokenLedger, AuthSet) {
    let mut account = MerchantAccount::new(ACCOUNT_ADDR);
    let all_auths = AuthSet::new(vec![MERCHANT, MANAGER]);
    account.initialize(MERCHANT, MANAGER, 1, 0).unwrap();
    (account, TokenLedger::new(), all_auths)
}

#[test]
fn test_withdraw_to_success() {
    let (mut account, mut ledger, auths) = setup_initialized_account();

    let initial_amount: i128 = 1_000;
    ledger.mint(TOKEN, ACCOUNT_ADDR, initial_amount).unwrap();
    let n0 = account.events.len();

    let withdraw_amount: i128 = 400;
    account.withdraw_to(&mut ledger, TOKEN, withdraw_amount, RECIPIENT, &auths, 0).unwrap();

    assert_eq!(ledger.balance(TOKEN, RECIPIENT), withdraw_amount);
    assert_eq!(ledger.balance(TOKEN, ACCOUNT_ADDR), initial_amount - withdraw_amount);

    assert_eq!(account.events.len(), n0 + 1);
    let expected = AccountEvent::WithdrawalTo(WithdrawalToEvent {
        token: TOKEN,
        recipient: RECIPIENT,
        amount: withdraw_amount,
        timestamp: 0,
    });
    assert_eq!(account.events[n0], expected);
}

#[test]
fn test_withdraw_to_unauthorized() {
    let (mut account, mut ledger, _auths) = setup_initialized_account();
    ledger.mint(TOKEN, ACCOUNT_ADDR, 1_000).unwrap();

    let bad_auths = AuthSet::new(vec![RANDOM]);
    let r = account.withdraw_to(&mut ledger, TOKEN, 100, RECIPIENT, &bad_auths, 0);
    assert_eq!(r, Err(AccountError::NotAuthorized));
}

#[test]
fn test_withdraw_to_insufficient_balance() {
    let (mut account, mut ledger, auths) = setup_initialized_account();
    ledger.mint(TOKEN, ACCOUNT_ADDR, 100).unwrap();

    let r = account.withdraw_to(&mut ledger, TOKEN, 999, RECIPIENT, &auths, 0);
    assert_eq!(r, Err(AccountError::Token(TokenError::InsufficientBalance)));
}

#[test]
fn test_withdraw_to_self_transfer() {
    let (mut account, mut ledger, auths) = setup_initialized_account();

    let initial_amount: i128 = 500;
    ledger.mint(TOKEN, ACCOUNT_ADDR, initial_amount).unwrap();

    let withdraw_amount: i128 = 200;
    account.withdraw_to(&mut ledger, TOKEN, withdraw_amount, MERCHANT, &auths, 0).unwrap();

    assert_eq!(ledger.balance(TOKEN, MERCHANT), withdraw_amount);
    assert_eq!(ledger.balance(TOKEN, ACCOUNT_ADDR), initial_amount - withdraw_amount);
}

#[test]
fn test_withdraw_to_manager_cannot_withdraw() {
    let (mut account, mut ledger, _auths) = setup_initialized_account();
    ledger.mint(TOKEN, ACCOUNT_ADDR, 1_000).unwrap();

    let manager_auths = AuthSet::new(vec![MANAGER]);
    let r = account.withdraw_to(&mut ledger, TOKEN, 100, RECIPIENT, &manager_auths, 0);
    assert_eq!(r, Err(AccountError::NotAuthorized));
}

#[test]
fn test_withdraw_to_insufficient_balance_leaves_contract_unchanged() {
    let (mut account, mut ledger, auths) = setup_initialized_account();

    let initial_amount: i128 = 100;
    ledger.mint(TOKEN, ACCOUNT_ADDR, initial_amount).unwrap();
    let n0 = account.events.len();

    let r = account.withdraw_to(&mut ledger, TOKEN, 999, RECIPIENT, &auths, 0);
    assert!(r.is_err());

    assert_eq!(ledger.balance(TOKEN, ACCOUNT_ADDR), initial_amount);
    assert_eq!(ledger.balance(TOKEN, RECIPIENT), 0);
    assert_eq!(account.events.len(), n0);
}

#[test]
fn test_withdraw_to_restricted_account_fails() {
    let (mut account, mut ledger, auths) = setup_initialized_account();
    ledger.mint(TOKEN, ACCOUNT_ADDR, 1_000).unwrap();
    account.restrict_account(true, &auths, 0).unwrap();

    let r = account.withdraw_to(&mut ledger, TOKEN, 100, RECIPIENT, &auths, 0);
    assert_eq!(r, Err(AccountError::AccountRestricted));
    assert_eq!(ledger.balance(TOKEN, ACCOUNT_ADDR), 1_000);
}
