//! Error taxonomy of the settlement engine.
//!
//! Every violated precondition aborts the call that hit it: the failing
//! entry point returns the error and leaves all state unchanged.

use vstd::prelude::*;

verus! {

/// Errors raised by the invoice engine's own entry points.
#[derive(Clone, Copy, Debug, PartialEq, Eq, Structural)]
pub enum ContractError {
    NotAuthorized,
    AlreadyInitialized,
    NotInitialized,
    Reentrancy,
    MerchantAlreadyRegistered,
    MerchantNotFound,
    InvalidAmount,
    InvoiceNotFound,
    ContractPaused,
    ContractNotPaused,
    MerchantKeyNotFound,
    TokenNotAccepted,
    MerchantAccountNotFound,
    InvalidInvoiceStatus,
    RefundPeriodExpired,
    WasmHashNotSet,
    InvoiceAlreadyPaid,
    MerchantAccountNotSet,
}

/// Errors raised by the token ledger.
#[derive(Clone, Copy, Debug, PartialEq, Eq, Structural)]
pub enum TokenError {
    /// A transfer or mint of a negative amount.
    NegativeAmount,
    /// The sender holds less than the transferred amount.
    InsufficientBalance,
    /// Minting the amount would push the token's total supply past the
    /// largest representable balance.
    SupplyOverflow,
}

/// Errors raised by a merchant escrow account's entry points.
#[derive(Clone, Copy, Debug, PartialEq, Eq, Structural)]
pub enum AccountError {
    AlreadyInitialized,
    NotInitialized,
    NotAuthorized,
    /// External movement of funds is blocked for this account.
    AccountRestricted,
    /// The token ledger rejected the transfer; nothing was moved.
    Token(TokenError),
}

/// Failure of an engine entry point that moves funds: either the engine
/// rejected the call itself, or a collaborator it invoked did, in which
/// case that collaborator's error is propagated unchanged.
#[derive(Clone, Copy, Debug, PartialEq, Eq, Structural)]
pub enum CallError {
    Contract(ContractError),
    Account(AccountError),
    Token(TokenError),
}

} // verus!
