//! Role grants, revocations and admin supremacy.

use shade::auth::AuthSet;
use shade::errors::ContractError;
use shade::events::ShadeEvent;
use shade::shade::Shade;
use shade::types::Role;

const ENGINE_ADDR: u64 = 100;
const ADMIN: u64 = 1;
const USER: u64 = 30;
const MALICIOUS: u64 = 99;

fn setup_test() -> (Shade, AuthSet) {
    let mut engine = Shade::new(ENGINE_ADDR);
    engine.initialize(ADMIN, 0).unwrap();
    let all_auths = AuthSet::new(vec![ADMIN, USER, MALICIOUS]);
    (engine, all_auths)
}

#[test]
fn test_grant_role() {
    let (mut engine, auths) = setup_test();

    assert!(!engine.has_role(USER, Role::Manager));
    engine.grant_role(ADMIN, USER, Role::Manager, &auths, 0).unwrap();
    assert!(engine.has_role(USER, Role::Manager));
}

#[test]
fn test_revoke_role() {
    let (mut engine, auths) = setup_test();

    engine.grant_role(ADMIN, USER, Role::Manager, &auths, 0).unwrap();
    assert!(engine.has_role(USER, Role::Manager));

    engine.revoke_role(ADMIN, USER, Role::Manager, &auths, 0).unwrap();
    assert!(!engine.has_role(USER, Role::Manager));
}

#[test]
fn test_admin_supremacy() {
    let (engine, _auths) = setup_test();

    assert!(engine.has_role(ADMIN, Role::Manager));
    assert!(engine.has_role(ADMIN, Role::Operator));
    assert!(engine.has_role(ADMIN, Role::Admin));
}

#[test]
fn test_unauthorized_grant() {
    let (mut engine, _auths) = setup_test();

    let bad_auths = AuthSet::new(vec![MALICIOUS]);
    let r = engine.grant_role(MALICIOUS, USER, Role::Manager, &bad_auths, 0);
    assert_eq!(r, Err(ContractError::NotAuthorized));
    assert!(!engine.has_role(USER, Role::Manager));
}

#[test]
fn test_unauthorized_revoke() {
    let (mut engine, auths) = setup_test();

    engine.grant_role(ADMIN, USER, Role::Manager, &auths, 0).unwrap();

    let bad_auths = AuthSet::new(vec![MALICIOUS]);
    let r = engine.revoke_role(MALICIOUS, USER, Role::Manager, &bad_auths, 0);
    assert_eq!(r, Err(ContractError::NotAuthorized));
    assert!(engine.has_role(USER, Role::Manager));
}

#[test]
fn test_events() {
    let (mut engine, auths) = setup_test();

    engine.grant_role(ADMIN, USER, Role::Manager, &auths, 0).unwrap();

    let last = engine.events.last().unwrap();
    assert!(matches!(last, ShadeEvent::RoleGranted(_)));
    assert!(engine.events.len() > 0);

    engine.revoke_role(ADMIN, USER, Role::Manager, &auths, 0).unwrap();

    let last = engine.events.last().unwrap();
    assert!(matches!(last, ShadeEvent::RoleRevoked(_)));
}

#[test]
fn test_duplicate_grant() {
    let (mut engine, auths) = setup_test();

    engine.grant_role(ADMIN, USER, Role::Manager, &auths, 0).unwrap();
    assert!(engine.has_role(USER, Role::Manager));

    engine.grant_role(ADMIN, USER, Role::Manager, &auths, 0).unwrap();
    assert!(engine.has_role(USER, Role::Manager));
}

#[test]
fn test_revoke_non_existent() {
    let (mut engine, auths) = setup_test();

    engine.revoke_role(ADMIN, USER, Role::Manager, &auths, 0).unwrap();
    assert!(!engine.has_role(USER, Role::Manager));
}
