//! A merchant invoicing and fund-settlement engine.
//!
//! Merchants register with the engine, issue invoices against a payment
//! token, and customers pay those invoices; the engine splits the proceeds
//! into a protocol fee and a merchant-owned escrow balance. Escrowed funds
//! can be refunded through the invoice or withdrawn by the merchant, subject
//! to authorization and a per-merchant restriction switch. Privileged
//! operations are gated by a role hierarchy and a global pause switch.
//!
//! The engine is written against explicit state: the persistent store, the
//! caller-authentication facts, the fungible-token ledger and the event log
//! that a hosting environment would provide are all passed in as plain
//! values, so every rule of the engine is stated in contracts and verified.

pub mod access;
pub mod account;
pub mod admin;
pub mod auth;
pub mod errors;
pub mod events;
pub mod invoice;
pub mod laws;
pub mod merchant;
pub mod pausable;
pub mod shade;
pub mod token;
pub mod types;
