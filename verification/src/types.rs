//! Data model of the settlement engine.
//!
//! Identities (addresses), tokens and timestamps are plain integers: the
//! engine never looks inside them, it only compares them and hands them on.

use vstd::prelude::*;

verus! {

/// The write-once configuration record, created at initialization.
#[derive(Clone, Copy, Debug, PartialEq, Eq, Structural)]
pub struct ContractInfo {
    pub admin: u64,
    pub timestamp: u64,
}

/// A registered merchant. Ids are assigned sequentially from 1 and records
/// are never deleted.
#[derive(Clone, Copy, Debug, PartialEq, Eq, Structural)]
pub struct Merchant {
    pub id: u64,
    pub address: u64,
    pub active: bool,
    pub verified: bool,
    pub date_registered: u64,
}

/// Lifecycle states of an invoice. Reachable transitions:
/// `Pending -> Paid -> { PartiallyRefunded, Refunded }`,
/// `PartiallyRefunded -> { PartiallyRefunded, Refunded }`,
/// `Pending -> Cancelled`. `Refunded` and `Cancelled` are terminal.
#[derive(Clone, Copy, Debug, PartialEq, Eq, Structural)]
pub enum InvoiceStatus {
    Pending,
    Paid,
    Cancelled,
    Refunded,
    PartiallyRefunded,
}

/// An invoice. Ids are assigned sequentially from 1, globally across
/// merchants, and records are never deleted.
#[derive(Clone, Debug, PartialEq, Eq)]
pub struct Invoice {
    pub id: u64,
    pub description: String,
    pub amount: i128,
    pub token: u64,
    pub status: InvoiceStatus,
    pub merchant_id: u64,
    pub payer: Option<u64>,
    pub date_created: u64,
    pub date_paid: Option<u64>,
    pub amount_refunded: i128,
}

/// Value equality of invoices, with the description compared as text.
pub open spec fn invoice_eq(a: Invoice, b: Invoice) -> bool {
    &&& a.id == b.id
    &&& a.description@ == b.description@
    &&& a.amount == b.amount
    &&& a.token == b.token
    &&& a.status == b.status
    &&& a.merchant_id == b.merchant_id
    &&& a.payer == b.payer
    &&& a.date_created == b.date_created
    &&& a.date_paid == b.date_paid
    &&& a.amount_refunded == b.amount_refunded
}

/// Optional predicates for scanning the merchant registry; an absent field
/// matches every merchant.
#[derive(Clone, Copy, Debug, PartialEq, Eq, Structural)]
pub struct MerchantFilter {
    pub is_active: Option<bool>,
    pub is_verified: Option<bool>,
}

/// Optional predicates for scanning the invoices; an absent field matches
/// every invoice. `merchant` is an address, resolved to a merchant id; an
/// address that is not registered matches no invoice.
#[derive(Clone, Copy, Debug, PartialEq, Eq, Structural)]
pub struct InvoiceFilter {
    pub status: Option<InvoiceStatus>,
    pub merchant: Option<u64>,
    pub min_amount: Option<u128>,
    pub max_amount: Option<u128>,
}

/// The grantable roles. The configured admin identity implicitly holds
/// every role; explicit grants cover everyone else.
#[derive(Clone, Copy, Debug, PartialEq, Eq, Structural)]
pub enum Role {
    Admin,
    Manager,
    Operator,
}

/// One explicit role grant.
#[derive(Clone, Copy, Debug, PartialEq, Eq, Structural)]
pub struct RoleGrant {
    pub user: u64,
    pub role: Role,
}

/// A fee rate, in basis points, for one token.
#[derive(Clone, Copy, Debug, PartialEq, Eq, Structural)]
pub struct FeeEntry {
    pub token: u64,
    pub bps: u32,
}

/// The escrow-account address registered for one merchant address.
#[derive(Clone, Copy, Debug, PartialEq, Eq, Structural)]
pub struct MerchantAccountEntry {
    pub merchant: u64,
    pub account: u64,
}

/// The configuration record of an escrow account, set at initialization.
#[derive(Clone, Copy, Debug, PartialEq, Eq, Structural)]
pub struct AccountInfo {
    pub manager: u64,
    pub merchant_id: u64,
    pub merchant: u64,
    pub date_created: u64,
}

/// A tracked token of an escrow account together with its live balance.
#[derive(Clone, Copy, Debug, PartialEq, Eq, Structural)]
pub struct TokenBalance {
    pub token: u64,
    pub balance: i128,
}

} // verus!
