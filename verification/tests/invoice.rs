//! Invoice creation, voiding and refunds.

use shade::account::MerchantAccount;
use shade::auth::AuthSet;
use shade::errors::{CallError, ContractError};
use shade::events::{InvoiceCreatedEvent, InvoiceRefundedEvent, ShadeEvent};
use shade::shade::Shade;
use shade::token::TokenLedger;
use shade::types::InvoiceStatus;

const ENGINE_ADDR: u64 = 100;
const ADMIN: u64 = 1;
const MERCHANT: u64 = 10;
const OTHER_MERCHANT: u64 = 11;
const PAYER: u64 = 30;
const TOKEN: u64 = 50;
const ACCOUNT_ADDR: u64 = 200;

fn setup_test() -> (Shade, AuthSet) {
    let mut engine = Shade::new(ENGINE_ADDR);
    engine.initialize(ADMIN, 0).unwrap();
    let all_auths = AuthSet::new(vec![ADMIN, MERCHANT, OTHER_MERCHANT, PAYER]);
    (engine, all_auths)
}

fn assert_latest_invoice_event(
    engine: &Shade,
    expected_invoice_id: u64,
    expected_merchant: u64,
    expected_amount: i128,
    expected_token: u64,
) {
    assert!(engine.events.len() > 0, "No events captured for invoice!");
    let expected = ShadeEvent::InvoiceCreated(InvoiceCreatedEvent {
        invoice_id: expected_invoice_id,
        merchant: expected_merchant,
        amount: expected_amount,
        token: expected_token,
    });
    assert_eq!(*engine.events.last().unwrap(), expected);
}

/// Marks an invoice paid directly in the stored state, the way a settled
/// payment would have left it, and registers the escrow account address.
fn mark_invoice_paid(
    engine: &mut Shade,
    invoice_id: u64,
    payer: u64,
    date_paid: u64,
    merchant: u64,
    account_addr: u64,
    auths: &AuthSet,
) {
    let k = (invoice_id - 1) as usize;
    engine.invoices[k].status = InvoiceStatus::Paid;
    engine.invoices[k].payer = Some(payer);
    engine.invoices[k].date_paid = Some(date_paid);
    engine.set_merchant_account(merchant, account_addr, auths).unwrap();
}

#[test]
fn test_create_and_get_invoice_success() {
    let (mut engine, auths) = setup_test();
    engine.register_merchant(MERCHANT, &auths, 0).unwrap();

    let description = String::from("Test Invoice");
    let amount: i128 = 1000;

    let invoice_id = engine
        .create_invoice(MERCHANT, description.clone(), amount, TOKEN, &auths, 0)
        .unwrap();
    assert_eq!(invoice_id, 1);

    assert_latest_invoice_event(&engine, invoice_id, MERCHANT, amount, TOKEN);

    let invoice = engine.get_invoice(invoice_id).unwrap();
    assert_eq!(invoice.id, 1);
    assert_eq!(invoice.merchant_id, 1);
    assert_eq!(invoice.amount, amount);
    assert_eq!(invoice.token, TOKEN);
    assert_eq!(invoice.description, description);
    assert_eq!(invoice.status, InvoiceStatus::Pending);
}

#[test]
fn test_create_multiple_invoices() {
    let (mut engine, auths) = setup_test();
    engine.register_merchant(MERCHANT, &auths, 0).unwrap();

    let token1 = TOKEN;
    let token2 = TOKEN + 1;
    let id1 = engine
        .create_invoice(MERCHANT, String::from("Invoice 1"), 1000, token1, &auths, 0)
        .unwrap();
    let id2 = engine
        .create_invoice(MERCHANT, String::from("Invoice 2"), 2000, token2, &auths, 0)
        .unwrap();
    let id3 = engine
        .create_invoice(MERCHANT, String::from("Invoice 3"), 500, token1, &auths, 0)
        .unwrap();

    assert_eq!(id1, 1);
    assert_eq!(id2, 2);
    assert_eq!(id3, 3);
}

#[test]
fn test_get_invoice_not_found() {
    let (engine, _auths) = setup_test();
    let r = engine.get_invoice(999);
    assert_eq!(r, Err(ContractError::InvoiceNotFound));
}

#[test]
fn test_create_invoice_unregistered_merchant() {
    let (mut engine, auths) = setup_test();

    let r = engine.create_invoice(MERCHANT, String::from("Test Invoice"), 1000, TOKEN, &auths, 0);
    assert_eq!(r, Err(ContractError::NotAuthorized));
}

#[test]
fn test_create_invoice_invalid_amount() {
    let (mut engine, auths) = setup_test();
    engine.register_merchant(MERCHANT, &auths, 0).unwrap();

    let r = engine.create_invoice(MERCHANT, String::from("Test Invoice"), 0, TOKEN, &auths, 0);
    assert_eq!(r, Err(ContractError::InvalidAmount));
}

#[test]
fn test_refund_invoice_success_within_window() {
    let (mut engine, auths) = setup_test();
    engine.register_merchant(MERCHANT, &auths, 0).unwrap();

    let amount = 1_000_i128;
    let invoice_id = engine
        .create_invoice(MERCHANT, String::from("Refundable Invoice"), amount, TOKEN, &auths, 0)
        .unwrap();

    let mut account = MerchantAccount::new(ACCOUNT_ADDR);
    account.initialize(MERCHANT, ENGINE_ADDR, 1, 0).unwrap();

    let mut ledger = TokenLedger::new();
    ledger.mint(TOKEN, ACCOUNT_ADDR, amount).unwrap();

    mark_invoice_paid(&mut engine, invoice_id, PAYER, 900, MERCHANT, ACCOUNT_ADDR, &auths);

    let now = 1_000;
    engine
        .refund_invoice(&mut ledger, &mut account, MERCHANT, invoice_id, &auths, now)
        .unwrap();

    let expected = ShadeEvent::InvoiceRefunded(InvoiceRefundedEvent {
        invoice_id,
        merchant: MERCHANT,
        amount,
        timestamp: now,
    });
    assert!(engine.events.len() >= 1);
    assert_eq!(*engine.events.last().unwrap(), expected);

    let updated = engine.get_invoice(invoice_id).unwrap();
    assert_eq!(updated.status, InvoiceStatus::Refunded);

    assert_eq!(ledger.balance(TOKEN, PAYER), amount);
    assert_eq!(ledger.balance(TOKEN, ACCOUNT_ADDR), 0);
}

#[test]
fn test_refund_invoice_fails_after_refund_window() {
    let (mut engine, auths) = setup_test();
    engine.register_merchant(MERCHANT, &auths, 0).unwrap();

    let invoice_id = engine
        .create_invoice(MERCHANT, String::from("Expired refund"), 500, TOKEN, &auths, 0)
        .unwrap();

    let mut account = MerchantAccount::new(ACCOUNT_ADDR);
    account.initialize(MERCHANT, ENGINE_ADDR, 1, 0).unwrap();
    let mut ledger = TokenLedger::new();

    mark_invoice_paid(&mut engine, invoice_id, PAYER, 0, MERCHANT, ACCOUNT_ADDR, &auths);

    let r = engine.refund_invoice(&mut ledger, &mut account, MERCHANT, invoice_id, &auths, 604_801);
    assert_eq!(r, Err(CallError::Contract(ContractError::RefundPeriodExpired)));
}

#[test]
fn test_void_invoice_success() {
    let (mut engine, auths) = setup_test();
    engine.register_merchant(MERCHANT, &auths, 0).unwrap();

    let invoice_id = engine
        .create_invoice(MERCHANT, String::from("Test Invoice"), 1000, TOKEN, &auths, 0)
        .unwrap();

    let invoice_before = engine.get_invoice(invoice_id).unwrap();
    assert_eq!(invoice_before.status, InvoiceStatus::Pending);

    engine.void_invoice(MERCHANT, invoice_id, &auths, 0).unwrap();

    let invoice_after = engine.get_invoice(invoice_id).unwrap();
    assert_eq!(invoice_after.status, InvoiceStatus::Cancelled);
}

#[test]
fn test_refund_invoice_fails_for_non_owner() {
    let (mut engine, auths) = setup_test();
    engine.register_merchant(MERCHANT, &auths, 0).unwrap();
    engine.register_merchant(OTHER_MERCHANT, &auths, 0).unwrap();

    let invoice_id = engine
        .create_invoice(MERCHANT, String::from("Wrong owner"), 250, TOKEN, &auths, 0)
        .unwrap();

    let mut account = MerchantAccount::new(ACCOUNT_ADDR);
    account.initialize(MERCHANT, ENGINE_ADDR, 1, 0).unwrap();
    let mut ledger = TokenLedger::new();

    mark_invoice_paid(&mut engine, invoice_id, PAYER, 90, MERCHANT, ACCOUNT_ADDR, &auths);

    let r = engine.refund_invoice(&mut ledger, &mut account, OTHER_MERCHANT, invoice_id, &auths, 100);
    assert_eq!(r, Err(CallError::Contract(ContractError::NotAuthorized)));
}

#[test]
fn test_void_invoice_non_owner() {
    let (mut engine, auths) = setup_test();
    engine.register_merchant(MERCHANT, &auths, 0).unwrap();

    let invoice_id = engine
        .create_invoice(MERCHANT, String::from("Test Invoice"), 1000, TOKEN, &auths, 0)
        .unwrap();

    engine.register_merchant(OTHER_MERCHANT, &auths, 0).unwrap();
    let r = engine.void_invoice(OTHER_MERCHANT, invoice_id, &auths, 0);
    assert_eq!(r, Err(ContractError::NotAuthorized));
}

#[test]
fn test_void_invoice_already_paid() {
    let (mut engine, auths) = setup_test();
    engine.add_accepted_token(ADMIN, TOKEN, &auths).unwrap();
    engine.set_fee(ADMIN, TOKEN, 500, &auths).unwrap();
    engine.register_merchant(MERCHANT, &auths, 0).unwrap();
    engine.set_merchant_account(MERCHANT, ACCOUNT_ADDR, &auths).unwrap();

    let invoice_id = engine
        .create_invoice(MERCHANT, String::from("Test Invoice"), 1000, TOKEN, &auths, 0)
        .unwrap();

    let mut ledger = TokenLedger::new();
    ledger.mint(TOKEN, PAYER, 1000).unwrap();
    engine.pay_invoice(&mut ledger, PAYER, invoice_id, &auths, 0).unwrap();

    let r = engine.void_invoice(MERCHANT, invoice_id, &auths, 0);
    assert_eq!(r, Err(ContractError::InvalidInvoiceStatus));
}

#[test]
fn test_void_invoice_already_cancelled() {
    let (mut engine, auths) = setup_test();
    engine.register_merchant(MERCHANT, &auths, 0).unwrap();

    let invoice_id = engine
        .create_invoice(MERCHANT, String::from("Test Invoice"), 1000, TOKEN, &auths, 0)
        .unwrap();

    engine.void_invoice(MERCHANT, invoice_id, &auths, 0).unwrap();

    let r = engine.void_invoice(MERCHANT, invoice_id, &auths, 0);
    assert_eq!(r, Err(ContractError::InvalidInvoiceStatus));
}

#[test]
fn test_pay_cancelled_invoice() {
    let (mut engine, auths) = setup_test();
    engine.add_accepted_token(ADMIN, TOKEN, &auths).unwrap();
    engine.set_fee(ADMIN, TOKEN, 500, &auths).unwrap();
    engine.register_merchant(MERCHANT, &auths, 0).unwrap();
    engine.set_merchant_account(MERCHANT, ACCOUNT_ADDR, &auths).unwrap();

    let invoice_id = engine
        .create_invoice(MERCHANT, String::from("Test Invoice"), 1000, TOKEN, &auths, 0)
        .unwrap();

    engine.void_invoice(MERCHANT, invoice_id, &auths, 0).unwrap();

    let mut ledger = TokenLedger::new();
    ledger.mint(TOKEN, PAYER, 1000).unwrap();

    let r = engine.pay_invoice(&mut ledger, PAYER, invoice_id, &auths, 0);
    assert_eq!(r, Err(CallError::Contract(ContractError::InvalidInvoiceStatus)));
}

#[test]
fn test_void_non_existent_invoice() {
    let (mut engine, auths) = setup_test();
    engine.register_merchant(MERCHANT, &auths, 0).unwrap();

    let r = engine.void_invoice(MERCHANT, 999, &auths, 0);
    assert_eq!(r, Err(ContractError::InvoiceNotFound));
}
