//! The merchant escrow account: the per-merchant custodian of settled
//! funds.
//!
//! One account exists per merchant. It tracks the tokens it accepts, blocks
//! external withdrawals while restricted, and moves funds only through the
//! token ledger: refunds on behalf of its manager (the invoice engine) and
//! withdrawals on behalf of its owning merchant.

use crate::auth::AuthSet;
use crate::errors::AccountError;
use crate::events::{
    publish_account_initialized_event, publish_refund_processed_event, publish_token_added_event,
    publish_withdrawal_to_event, AccountEvent, AccountRestrictedEvent,
};
use crate::token::TokenLedger;
use crate::types::{AccountInfo, TokenBalance};
use vstd::prelude::*;

verus! {

/// A merchant escrow account. Its token balances live in the external
/// ledger, keyed by `address`; the account itself holds only its
/// configuration, its tracked-token list and its event log.
pub struct MerchantAccount {
    /// The identity under which the ledger holds this account's balances.
    pub address: u64,
    pub initialized: bool,
    /// The owning merchant; the only identity allowed to withdraw.
    pub merchant: u64,
    /// The managing identity (the invoice engine); the only identity
    /// allowed to add tokens, toggle restriction and execute refunds.
    pub manager: u64,
    pub merchant_id: u64,
    pub date_created: u64,
    pub verified: bool,
    /// While set, external movement of funds out of this account is
    /// blocked.
    pub restricted: bool,
    pub tracked_tokens: Vec<u64>,
    pub events: Vec<AccountEvent>,
}

/// The fields of `post` other than the event log are those of `pre`.
pub open spec fn same_except_events(pre: MerchantAccount, post: MerchantAccount) -> bool {
    post == (MerchantAccount { events: post.events, ..pre })
}

impl MerchantAccount {
    /// The account's invariant: no token is tracked twice.
    pub open spec fn wf(self) -> bool {
        forall|i: int, j: int|
            0 <= i < j < self.tracked_tokens@.len()
                ==> #[trigger] self.tracked_tokens@[i] != #[trigger] self.tracked_tokens@[j]
    }

    /// Whether `token` is on the account's tracked-token list.
    pub open spec fn tracks(self, token: u64) -> bool {
        self.tracked_tokens@.contains(token)
    }

    /// A fresh, uninitialized account deployed at `address`.
    pub fn new(address: u64) -> (r: MerchantAccount)
        ensures
            r.wf(),
            r == (MerchantAccount {
                address,
                initialized: false,
                merchant: 0,
                manager: 0,
                merchant_id: 0,
                date_created: 0,
                verified: false,
                restricted: false,
                tracked_tokens: r.tracked_tokens,
                events: r.events,
            }),
            r.tracked_tokens@ == Seq::<u64>::empty(),
            r.events@ == Seq::<AccountEvent>::empty(),
    {
        MerchantAccount {
            address,
            initialized: false,
            merchant: 0,
            manager: 0,
            merchant_id: 0,
            date_created: 0,
            verified: false,
            restricted: false,
            tracked_tokens: Vec::new(),
            events: Vec::new(),
        }
    }

    /// Binds the account to its merchant and manager. Write-once: a second
    /// call fails with `AlreadyInitialized` and changes nothing.
    pub fn initialize(&mut self, merchant: u64, manager: u64, merchant_id: u64, now: u64) -> (r:
        Result<(), AccountError>)
        requires
            old(self).wf(),
        ensures
            final(self).wf(),
            r == (if old(self).initialized {
                Err::<(), AccountError>(AccountError::AlreadyInitialized)
            } else {
                Ok::<(), AccountError>(())
            }),
            r is Err ==> *final(self) == *old(self),
            r is Ok ==> *final(self) == (MerchantAccount {
                initialized: true,
                merchant,
                manager,
                merchant_id,
                date_created: now,
                events: final(self).events,
                ..*old(self)
            }),
            r is Ok ==> final(self).events@ == old(self).events@.push(
                AccountEvent::AccountInitalized(
                    crate::events::AccountInitalizedEvent { merchant, merchant_id, timestamp: now },
                ),
            ),
    {
        if self.initialized {
            return Err(AccountError::AlreadyInitialized);
        }
        self.initialized = true;
        self.merchant = merchant;
        self.manager = manager;
        self.merchant_id = merchant_id;
        self.date_created = now;
        publish_account_initialized_event(&mut self.events, merchant, merchant_id, now);
        Ok(())
    }

    /// Puts `token` on the tracked-token list. Manager-authorized and
    /// idempotent: re-adding a tracked token is a silent no-op with no
    /// event; a first add appends the token and exactly one event.
    pub fn add_token(&mut self, token: u64, auths: &AuthSet, now: u64) -> (r: Result<
        (),
        AccountError,
    >)
        requires
            old(self).wf(),
        ensures
            final(self).wf(),
            r == (if !old(self).initialized {
                Err::<(), AccountError>(AccountError::NotInitialized)
            } else if !auths.authorized(old(self).manager) {
                Err::<(), AccountError>(AccountError::NotAuthorized)
            } else {
                Ok::<(), AccountError>(())
            }),
            r is Err ==> *final(self) == *old(self),
            r is Ok ==> *final(self) == (MerchantAccount {
                tracked_tokens: final(self).tracked_tokens,
                events: final(self).events,
                ..*old(self)
            }),
            r is Ok ==> final(self).tracked_tokens@ == (if old(self).tracks(token) {
                old(self).tracked_tokens@
            } else {
                old(self).tracked_tokens@.push(token)
            }),
            r is Ok ==> final(self).events@ == (if old(self).tracks(token) {
                old(self).events@
            } else {
                old(self).events@.push(
                    AccountEvent::TokenAdded(
                        crate::events::TokenAddedEvent { token, timestamp: now },
                    ),
                )
            }),
    {
        if !self.initialized {
            return Err(AccountError::NotInitialized);
        }
        if !auths.contains(self.manager) {
            return Err(AccountError::NotAuthorized);
        }
        if self.has_token(token) {
            return Ok(());
        }
        self.tracked_tokens.push(token);
        publish_token_added_event(&mut self.events, token, now);
        Ok(())
    }

    /// Whether `token` is tracked.
    pub fn has_token(&self, token: u64) -> (r: bool)
        ensures
            r == self.tracks(token),
    {
        let mut k: usize = 0;
        while k < self.tracked_tokens.len()
            invariant
                0 <= k <= self.tracked_tokens@.len(),
                forall|i: int| 0 <= i < k ==> self.tracked_tokens@[i] != token,
            decreases self.tracked_tokens@.len() - k,
        {
            if self.tracked_tokens[k] == token {
                return true;
            }
            k += 1;
        }
        false
    }

    /// The account's live balance in `token`, read from the ledger.
    pub fn get_balance(&self, ledger: &TokenLedger, token: u64) -> (r: i128)
        requires
            ledger.wf(),
        ensures
            r as int == ledger.balance_of(token, self.address),
            r >= 0,
    {
        ledger.balance(token, self.address)
    }

    /// One entry per tracked token, each with its live ledger balance.
    pub fn get_balances(&self, ledger: &TokenLedger) -> (r: Vec<TokenBalance>)
        requires
            ledger.wf(),
        ensures
            r@.len() == self.tracked_tokens@.len(),
            forall|i: int|
                0 <= i < r@.len() ==> #[trigger] r@[i].token == self.tracked_tokens@[i]
                    && r@[i].balance as int == ledger.balance_of(
                    self.tracked_tokens@[i],
                    self.address,
                ),
    {
        let mut out: Vec<TokenBalance> = Vec::new();
        let mut k: usize = 0;
        while k < self.tracked_tokens.len()
            invariant
                ledger.wf(),
                0 <= k <= self.tracked_tokens@.len(),
                out@.len() == k,
                forall|i: int|
                    0 <= i < k ==> #[trigger] out@[i].token == self.tracked_tokens@[i]
                        && out@[i].balance as int == ledger.balance_of(
                        self.tracked_tokens@[i],
                        self.address,
                    ),
            decreases self.tracked_tokens@.len() - k,
        {
            let token = self.tracked_tokens[k];
            let balance = ledger.balance(token, self.address);
            out.push(TokenBalance { token, balance });
            k += 1;
        }
        out
    }

    /// Moves `amount` of `token` from this account to `recipient`.
    /// Merchant-only — the manager cannot withdraw — and blocked while the
    /// account is restricted. A rejected transfer is propagated and nothing
    /// changes; a committed one appends exactly one withdrawal event.
    pub fn withdraw_to(
        &mut self,
        ledger: &mut TokenLedger,
        token: u64,
        amount: i128,
        recipient: u64,
        auths: &AuthSet,
        now: u64,
    ) -> (r: Result<(), AccountError>)
        requires
            old(self).wf(),
            old(ledger).wf(),
        ensures
            final(self).wf(),
            final(ledger).wf(),
            forall|t: u64|
                #[trigger] final(ledger).total_supply(t) == old(ledger).total_supply(t),
            r == (if !old(self).initialized {
                Err::<(), AccountError>(AccountError::NotInitialized)
            } else if !auths.authorized(old(self).merchant) {
                Err::<(), AccountError>(AccountError::NotAuthorized)
            } else if old(self).restricted {
                Err::<(), AccountError>(AccountError::AccountRestricted)
            } else {
                match old(ledger).transfer_result(token, old(self).address, amount) {
                    Ok(()) => Ok::<(), AccountError>(()),
                    Err(e) => Err::<(), AccountError>(AccountError::Token(e)),
                }
            }),
            r is Err ==> *final(self) == *old(self) && *final(ledger) == *old(ledger),
            r is Ok ==> same_except_events(*old(self), *final(self)) && final(self).events@ == old(
                self,
            ).events@.push(
                AccountEvent::WithdrawalTo(
                    crate::events::WithdrawalToEvent { token, recipient, amount, timestamp: now },
                ),
            ),
            r is Ok ==> forall|t: u64, h: u64|
                #[trigger] final(ledger).balance_of(t, h) == old(ledger).balance_of(t, h) - (
                if t == token && h == old(self).address {
                    amount as int
                } else {
                    0
                }) + (
                if t == token && h == recipient {
                    amount as int
                } else {
                    0
                }),
    {
        if !self.initialized {
            return Err(AccountError::NotInitialized);
        }
        if !auths.contains(self.merchant) {
            return Err(AccountError::NotAuthorized);
        }
        if self.restricted {
            return Err(AccountError::AccountRestricted);
        }
        match ledger.transfer(token, self.address, recipient, amount) {
            Ok(()) => {},
            Err(e) => {
                return Err(AccountError::Token(e));
            },
        }
        publish_withdrawal_to_event(&mut self.events, token, recipient, amount, now);
        Ok(())
    }

    /// Moves `amount` of `token` from this account back to `recipient` on
    /// the manager's behalf: the only path by which the invoice engine
    /// returns escrowed funds to a payer. Blocked while restricted. A
    /// rejected transfer is propagated and nothing changes; a committed one
    /// appends exactly one refund event.
    pub fn refund(
        &mut self,
        ledger: &mut TokenLedger,
        token: u64,
        amount: i128,
        recipient: u64,
        auths: &AuthSet,
        now: u64,
    ) -> (r: Result<(), AccountError>)
        requires
            old(self).wf(),
            old(ledger).wf(),
        ensures
            final(self).wf(),
            final(ledger).wf(),
            forall|t: u64|
                #[trigger] final(ledger).total_supply(t) == old(ledger).total_supply(t),
            r == (if !old(self).initialized {
                Err::<(), AccountError>(AccountError::NotInitialized)
            } else if !auths.authorized(old(self).manager) {
                Err::<(), AccountError>(AccountError::NotAuthorized)
            } else if old(self).restricted {
                Err::<(), AccountError>(AccountError::AccountRestricted)
            } else {
                match old(ledger).transfer_result(token, old(self).address, amount) {
                    Ok(()) => Ok::<(), AccountError>(()),
                    Err(e) => Err::<(), AccountError>(AccountError::Token(e)),
                }
            }),
            r is Err ==> *final(self) == *old(self) && *final(ledger) == *old(ledger),
            r is Ok ==> same_except_events(*old(self), *final(self)) && final(self).events@ == old(
                self,
            ).events@.push(
                AccountEvent::RefundProcessed(
                    crate::events::RefundProcessedEvent { token, amount, recipient, timestamp: now },
                ),
            ),
            r is Ok ==> forall|t: u64, h: u64|
                #[trigger] final(ledger).balance_of(t, h) == old(ledger).balance_of(t, h) - (
                if t == token && h == old(self).address {
                    amount as int
                } else {
                    0
                }) + (
                if t == token && h == recipient {
                    amount as int
                } else {
                    0
                }),
    {
        if !self.initialized {
            return Err(AccountError::NotInitialized);
        }
        if !auths.contains(self.manager) {
            return Err(AccountError::NotAuthorized);
        }
        if self.restricted {
            return Err(AccountError::AccountRestricted);
        }
        match ledger.transfer(token, self.address, recipient, amount) {
            Ok(()) => {},
            Err(e) => {
                return Err(AccountError::Token(e));
            },
        }
        publish_refund_processed_event(&mut self.events, token, amount, recipient, now);
        Ok(())
    }

    /// Sets the restriction switch. Manager-only. The event is emitted on
    /// every successful call, also when the value does not change.
    pub fn restrict_account(&mut self, flag: bool, auths: &AuthSet, now: u64) -> (r: Result<
        (),
        AccountError,
    >)
        requires
            old(self).wf(),
        ensures
            final(self).wf(),
            r == (if !old(self).initialized {
                Err::<(), AccountError>(AccountError::NotInitialized)
            } else if !auths.authorized(old(self).manager) {
                Err::<(), AccountError>(AccountError::NotAuthorized)
            } else {
                Ok::<(), AccountError>(())
            }),
            r is Err ==> *final(self) == *old(self),
            r is Ok ==> *final(self) == (MerchantAccount {
                restricted: flag,
                events: final(self).events,
                ..*old(self)
            }),
            r is Ok ==> final(self).events@ == old(self).events@.push(
                AccountEvent::AccountRestricted(
                    AccountRestrictedEvent { status: flag, timestamp: now },
                ),
            ),
    {
        if !self.initialized {
            return Err(AccountError::NotInitialized);
        }
        if !auths.contains(self.manager) {
            return Err(AccountError::NotAuthorized);
        }
        self.restricted = flag;
        self.events.push(AccountEvent::AccountRestricted(AccountRestrictedEvent {
            status: flag,
            timestamp: now,
        }));
        Ok(())
    }

    /// Whether external withdrawals are currently blocked.
    pub fn is_restricted_account(&self) -> (r: bool)
        ensures
            r == self.restricted,
    {
        self.restricted
    }

    /// The account's configuration record.
    pub fn get_account_info(&self) -> (r: Result<AccountInfo, AccountError>)
        ensures
            r == (if self.initialized {
                Ok::<AccountInfo, AccountError>(
                    AccountInfo {
                        manager: self.manager,
                        merchant_id: self.merchant_id,
                        merchant: self.merchant,
                        date_created: self.date_created,
                    },
                )
            } else {
                Err::<AccountInfo, AccountError>(AccountError::NotInitialized)
            }),
    {
        if !self.initialized {
            return Err(AccountError::NotInitialized);
        }
        Ok(AccountInfo {
            manager: self.manager,
            merchant_id: self.merchant_id,
            merchant: self.merchant,
            date_created: self.date_created,
        })
    }
}

} // verus!
