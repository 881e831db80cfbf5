//! The escrow account's restriction switch.

use shade::account::MerchantAccount;
use shade::auth::AuthSet;
use shade::errors::AccountError;
use shade::events::AccountEvent;

const MERCHANT: u64 = 10;
const MANAGER: u64 = 20;
const ACCOUNT_ADDR: u64 = 200;

fn setup_test() -> (MerchantAccount, AuthSet) {
    let mut account = MerchantAccount::new(ACCOUNT_ADDR);
    let all_auths = AuthSet::new(vec![MERCHANT, MANAGER]);
    account.initialize(MERCHANT, MANAGER, 1, 0).unwrap();
    (account, all_auths)
}

fn find_account_restricted_event(account: &MerchantAccount) -> Option<(bool, u64)> {
    for e in account.events.iter().rev() {
        if let AccountEvent::AccountRestricted(ev) = e {
            return Some((ev.status, ev.timestamp));
        }
    }
    None
}

#[test]
fn test_default_state_is_not_restricted() {
    let (account, _auths) = setup_test();
    assert_eq!(account.is_restricted_account(), false);
}

#[test]
fn test_manager_can_restrict_account() {
    let (mut account, auths) = setup_test();
    account.restrict_account(true, &auths, 0).unwrap();
    assert_eq!(account.is_restricted_account(), true);
}

#[test]
fn test_manager_can_unrestrict_account() {
    let (mut account, auths) = setup_test();
    account.restrict_account(true, &auths, 0).unwrap();
    assert_eq!(account.is_restricted_account(), true);
    account.restrict_account(false, &auths, 0).unwrap();
    assert_eq!(account.is_restricted_account(), false);
}

#[test]
fn test_restriction_status_persists() {
    let (mut account, auths) = setup_test();
    account.restrict_account(true, &auths, 0).unwrap();
    assert_eq!(account.is_restricted_account(), true);
    assert_eq!(account.is_restricted_account(), true);
    account.restrict_account(false, &auths, 0).unwrap();
    assert_eq!(account.is_restricted_account(), false);
    assert_eq!(account.is_restricted_account(), false);
}

#[test]
fn test_merchant_cannot_restrict_account() {
    let (mut account, _auths) = setup_test();
    let no_auths = AuthSet::new(vec![]);
    let r = account.restrict_account(true, &no_auths, 0);
    assert_eq!(r, Err(AccountError::NotAuthorized));
    assert_eq!(account.is_restricted_account(), false);
}

#[test]
fn test_guest_cannot_restrict_account() {
    let (mut account, _auths) = setup_test();
    let no_auths = AuthSet::new(vec![]);
    let r = account.restrict_account(true, &no_auths, 0);
    assert_eq!(r, Err(AccountError::NotAuthorized));
    assert_eq!(account.is_restricted_account(), false);
}

#[test]
fn test_multiple_restriction_toggles() {
    let (mut account, auths) = setup_test();
    assert_eq!(account.is_restricted_account(), false);
    account.restrict_account(true, &auths, 0).unwrap();
    assert_eq!(account.is_restricted_account(), true);
    account.restrict_account(false, &auths, 0).unwrap();
    assert_eq!(account.is_restricted_account(), false);
    account.restrict_account(true, &auths, 0).unwrap();
    assert_eq!(account.is_restricted_account(), true);
    account.restrict_account(true, &auths, 0).unwrap();
    assert_eq!(account.is_restricted_account(), true);
    account.restrict_account(false, &auths, 0).unwrap();
    assert_eq!(account.is_restricted_account(), false);
}

#[test]
fn test_restriction_emits_event_on_change() {
    let (mut account, auths) = setup_test();

    account.restrict_account(true, &auths, 0).unwrap();
    let event1 = find_account_restricted_event(&account);
    assert!(event1.is_some());
    let (status1, _) = event1.unwrap();
    assert_eq!(status1, true);

    account.restrict_account(false, &auths, 0).unwrap();
    let event2 = find_account_restricted_event(&account);
    assert!(event2.is_some());
    let (status2, _) = event2.unwrap();
    assert_eq!(status2, false);
}
