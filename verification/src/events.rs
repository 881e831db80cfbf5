//! Events of the engine and of the escrow accounts.
//!
//! Each deployed unit appends to its own log; the log is append-only and a
//! failed call appends nothing. Payloads are a tagged union of typed
//! structs, one variant per event kind.

use crate::types::Role;
use vstd::prelude::*;

verus! {

// ---------------------------------------------------------------------------
// Invoice-engine events

#[derive(Clone, Copy, Debug, PartialEq, Eq, Structural)]
pub struct InitializedEvent {
    pub admin: u64,
    pub timestamp: u64,
}

#[derive(Clone, Copy, Debug, PartialEq, Eq, Structural)]
pub struct RoleGrantedEvent {
    pub user: u64,
    pub role: Role,
    pub timestamp: u64,
}

#[derive(Clone, Copy, Debug, PartialEq, Eq, Structural)]
pub struct RoleRevokedEvent {
    pub user: u64,
    pub role: Role,
    pub timestamp: u64,
}

#[derive(Clone, Copy, Debug, PartialEq, Eq, Structural)]
pub struct MerchantVerifiedEvent {
    pub merchant_id: u64,
    pub status: bool,
    pub timestamp: u64,
}

#[derive(Clone, Copy, Debug, PartialEq, Eq, Structural)]
pub struct InvoiceCreatedEvent {
    pub invoice_id: u64,
    pub merchant: u64,
    pub amount: i128,
    pub token: u64,
}

#[derive(Clone, Copy, Debug, PartialEq, Eq, Structural)]
pub struct InvoicePaidEvent {
    pub invoice_id: u64,
    pub payer: u64,
    pub amount: i128,
    pub fee: i128,
    pub merchant_amount: i128,
    pub timestamp: u64,
}

#[derive(Clone, Copy, Debug, PartialEq, Eq, Structural)]
pub struct InvoiceCancelledEvent {
    pub invoice_id: u64,
    pub merchant: u64,
    pub timestamp: u64,
}

#[derive(Clone, Copy, Debug, PartialEq, Eq, Structural)]
pub struct InvoiceRefundedEvent {
    pub invoice_id: u64,
    pub merchant: u64,
    pub amount: i128,
    pub timestamp: u64,
}

#[derive(Clone, Copy, Debug, PartialEq, Eq, Structural)]
pub struct InvoicePartiallyRefundedEvent {
    pub invoice_id: u64,
    pub merchant: u64,
    pub amount: i128,
    pub amount_refunded: i128,
    pub timestamp: u64,
}

#[derive(Clone, Copy, Debug, PartialEq, Eq, Structural)]
pub struct ContractPausedEvent {
    pub admin: u64,
    pub timestamp: u64,
}

#[derive(Clone, Copy, Debug, PartialEq, Eq, Structural)]
pub struct ContractUnpausedEvent {
    pub admin: u64,
    pub timestamp: u64,
}

/// An event of the invoice engine.
#[derive(Clone, Copy, Debug, PartialEq, Eq, Structural)]
pub enum ShadeEvent {
    Initialized(InitializedEvent),
    RoleGranted(RoleGrantedEvent),
    RoleRevoked(RoleRevokedEvent),
    MerchantVerified(MerchantVerifiedEvent),
    InvoiceCreated(InvoiceCreatedEvent),
    InvoicePaid(InvoicePaidEvent),
    InvoiceCancelled(InvoiceCancelledEvent),
    InvoiceRefunded(InvoiceRefundedEvent),
    InvoicePartiallyRefunded(InvoicePartiallyRefundedEvent),
    ContractPaused(ContractPausedEvent),
    ContractUnpaused(ContractUnpausedEvent),
}

// ---------------------------------------------------------------------------
// Escrow-account events

#[derive(Clone, Copy, Debug, PartialEq, Eq, Structural)]
pub struct AccountInitalizedEvent {
    pub merchant: u64,
    pub merchant_id: u64,
    pub timestamp: u64,
}

#[derive(Clone, Copy, Debug, PartialEq, Eq, Structural)]
pub struct TokenAddedEvent {
    pub token: u64,
    pub timestamp: u64,
}

#[derive(Clone, Copy, Debug, PartialEq, Eq, Structural)]
pub struct AccountVerified {
    pub timestamp: u64,
}

#[derive(Clone, Copy, Debug, PartialEq, Eq, Structural)]
pub struct WithdrawalToEvent {
    pub token: u64,
    pub recipient: u64,
    pub amount: i128,
    pub timestamp: u64,
}

#[derive(Clone, Copy, Debug, PartialEq, Eq, Structural)]
pub struct RefundProcessedEvent {
    pub token: u64,
    pub amount: i128,
    pub recipient: u64,
    pub timestamp: u64,
}

#[derive(Clone, Copy, Debug, PartialEq, Eq, Structural)]
pub struct AccountRestrictedEvent {
    pub status: bool,
    pub timestamp: u64,
}

/// An event of a merchant escrow account.
#[derive(Clone, Copy, Debug, PartialEq, Eq, Structural)]
pub enum AccountEvent {
    AccountInitalized(AccountInitalizedEvent),
    TokenAdded(TokenAddedEvent),
    AccountVerified(AccountVerified),
    WithdrawalTo(WithdrawalToEvent),
    RefundProcessed(RefundProcessedEvent),
    AccountRestricted(AccountRestrictedEvent),
}

// ---------------------------------------------------------------------------
// Escrow-account publishers

/// Appends the account-initialized event to the account's log.
pub fn publish_account_initialized_event(
    events: &mut Vec<AccountEvent>,
    merchant: u64,
    merchant_id: u64,
    timestamp: u64,
)
    ensures
        final(events)@ == old(events)@.push(
            AccountEvent::AccountInitalized(AccountInitalizedEvent { merchant, merchant_id, timestamp }),
        ),
{
    events.push(AccountEvent::AccountInitalized(AccountInitalizedEvent {
        merchant,
        merchant_id,
        timestamp,
    }));
}

/// Appends the token-added event to the account's log.
pub fn publish_token_added_event(events: &mut Vec<AccountEvent>, token: u64, timestamp: u64)
    ensures
        final(events)@ == old(events)@.push(
            AccountEvent::TokenAdded(TokenAddedEvent { token, timestamp }),
        ),
{
    events.push(AccountEvent::TokenAdded(TokenAddedEvent { token, timestamp }));
}

/// Appends the account-verified event to the account's log.
pub fn publish_account_verified_event(events: &mut Vec<AccountEvent>, timestamp: u64)
    ensures
        final(events)@ == old(events)@.push(
            AccountEvent::AccountVerified(AccountVerified { timestamp }),
        ),
{
    events.push(AccountEvent::AccountVerified(AccountVerified { timestamp }));
}

/// Appends the withdrawal event to the account's log.
pub fn publish_withdrawal_to_event(
    events: &mut Vec<AccountEvent>,
    token: u64,
    recipient: u64,
    amount: i128,
    timestamp: u64,
)
    ensures
        final(events)@ == old(events)@.push(
            AccountEvent::WithdrawalTo(WithdrawalToEvent { token, recipient, amount, timestamp }),
        ),
{
    events.push(AccountEvent::WithdrawalTo(WithdrawalToEvent {
        token,
        recipient,
        amount,
        timestamp,
    }));
}

/// Appends the refund-processed event to the account's log.
pub fn publish_refund_processed_event(
    events: &mut Vec<AccountEvent>,
    token: u64,
    amount: i128,
    recipient: u64,
    timestamp: u64,
)
    ensures
        final(events)@ == old(events)@.push(
            AccountEvent::RefundProcessed(RefundProcessedEvent { token, amount, recipient, timestamp }),
        ),
{
    events.push(AccountEvent::RefundProcessed(RefundProcessedEvent {
        token,
        amount,
        recipient,
        timestamp,
    }));
}

} // verus!
