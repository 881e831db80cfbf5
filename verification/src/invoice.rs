//! The invoice lifecycle: creation, payment with fee split, voiding and
//! windowed refunds.

use crate::account::MerchantAccount;
use crate::auth::AuthSet;
use crate::errors::{AccountError, CallError, ContractError, TokenError};
use crate::events::{
    InvoiceCancelledEvent, InvoiceCreatedEvent, InvoicePaidEvent, InvoicePartiallyRefundedEvent,
    InvoiceRefundedEvent, ShadeEvent,
};
use crate::shade::{invoice_valid, Shade, MAX_INVOICE_AMOUNT};
use crate::token::TokenLedger;
use crate::types::{invoice_eq, Invoice, InvoiceFilter, InvoiceStatus, Merchant};
use vstd::arithmetic::div_mod::{lemma_div_is_ordered, lemma_div_multiples_vanish, lemma_div_pos_is_pos};
use vstd::arithmetic::mul::{lemma_mul_inequality, lemma_mul_nonnegative};
use vstd::prelude::*;

verus! {

/// The refund window: refunds are permitted for this many seconds after
/// payment.
pub const MAX_REFUND_DURATION: u64 = 604_800;

/// The protocol fee taken out of an invoice amount at the given rate:
/// `floor(amount * bps / 10000)`.
pub open spec fn fee_of(amount: int, bps: int) -> int {
    amount * bps / 10000
}

/// The fee is well-behaved for every amount the engine stores and every
/// rate it accepts: it stays between zero and the full amount, and the
/// product it is computed from stays representable.
pub proof fn lemma_fee_bounds(amount: int, bps: int)
    requires
        0 < amount <= MAX_INVOICE_AMOUNT as int,
        0 <= bps <= 10000,
    ensures
        0 <= amount * bps <= i128::MAX as int,
        0 <= fee_of(amount, bps) <= amount,
{
    lemma_mul_nonnegative(amount, bps);
    lemma_mul_inequality(bps, 10000, amount);
    assert(bps * amount == amount * bps);
    assert(10000 * amount == amount * 10000);
    lemma_mul_inequality(amount, MAX_INVOICE_AMOUNT as int, 10000);
    assert(MAX_INVOICE_AMOUNT as int * 10000 <= i128::MAX as int);
    lemma_div_pos_is_pos(amount * bps, 10000);
    lemma_div_is_ordered(amount * bps, amount * 10000, 10000);
    lemma_div_multiples_vanish(amount, 10000);
    assert(10000 * amount / 10000 == amount);
}

/// Whether an invoice passes the filter against the given registry; an
/// absent field matches every invoice.
pub open spec fn invoice_filter_matches(inv: Invoice, f: InvoiceFilter, merchants: Seq<Merchant>)
    -> bool {
    &&& (match f.status {
        Option::None => true,
        Option::Some(st) => inv.status == st,
    })
    &&& (match f.merchant {
        Option::None => true,
        Option::Some(addr) => 1 <= inv.merchant_id <= merchants.len() && merchants[
            inv.merchant_id - 1
        ].address == addr,
    })
    &&& (match f.min_amount {
        Option::None => true,
        Option::Some(mn) => inv.amount as int >= mn as int,
    })
    &&& (match f.max_amount {
        Option::None => true,
        Option::Some(mx) => inv.amount as int <= mx as int,
    })
}

/// The subsequence of `s` passing the filter, in creation order.
pub open spec fn filtered_invoices(s: Seq<Invoice>, merchants: Seq<Merchant>, f: InvoiceFilter)
    -> Seq<Invoice> {
    s.filter(|inv: Invoice| invoice_filter_matches(inv, f, merchants))
}

/// A value copy of an invoice record.
fn clone_invoice(inv: &Invoice) -> (r: Invoice)
    ensures
        invoice_eq(r, *inv),
{
    Invoice {
        id: inv.id,
        description: inv.description.clone(),
        amount: inv.amount,
        token: inv.token,
        status: inv.status,
        merchant_id: inv.merchant_id,
        payer: inv.payer,
        date_created: inv.date_created,
        date_paid: inv.date_paid,
        amount_refunded: inv.amount_refunded,
    }
}

impl Shade {
    /// Whether the escrow-account value a caller hands in for this invoice
    /// is the account deployed at the address the engine has stored: the
    /// hosting environment routes the engine's calls by that address.
    pub open spec fn routes_to(self, account: MerchantAccount, invoice_id: u64) -> bool {
        1 <= invoice_id <= self.invoices@.len() ==> {
            let inv = self.invoices@[invoice_id - 1];
            1 <= inv.merchant_id <= self.merchants@.len() ==> {
                let maddr = self.merchants@[inv.merchant_id - 1].address;
                match self.account_of(maddr) {
                    Option::Some(a) => account.address == a,
                    Option::None => true,
                }
            }
        }
    }

    /// Whether `pay_invoice` commits, and the error it rejects with when it
    /// does not.
    pub open spec fn pay_result(
        self,
        ledger: TokenLedger,
        payer: u64,
        invoice_id: u64,
        auths: AuthSet,
    ) -> Result<(), CallError> {
        if !auths.authorized(payer) {
            Err(CallError::Contract(ContractError::NotAuthorized))
        } else if self.paused {
            Err(CallError::Contract(ContractError::ContractPaused))
        } else if !(1 <= invoice_id <= self.invoices@.len()) {
            Err(CallError::Contract(ContractError::InvoiceNotFound))
        } else {
            let inv = self.invoices@[invoice_id - 1];
            if inv.status != InvoiceStatus::Pending {
                Err(CallError::Contract(ContractError::InvalidInvoiceStatus))
            } else if !self.is_accepted_spec(inv.token) {
                Err(CallError::Contract(ContractError::TokenNotAccepted))
            } else if self.account_of(self.merchants@[inv.merchant_id - 1].address) is None {
                Err(CallError::Contract(ContractError::MerchantAccountNotSet))
            } else if ledger.balance_of(inv.token, payer) < inv.amount {
                Err(CallError::Token(TokenError::InsufficientBalance))
            } else {
                Ok(())
            }
        }
    }

    /// Creates a `Pending` invoice for the authenticated merchant and
    /// returns its id, the next in the global sequence. The amount must be
    /// positive and representable against any fee rate.
    pub fn create_invoice(
        &mut self,
        merchant: u64,
        description: String,
        amount: i128,
        token: u64,
        auths: &AuthSet,
        now: u64,
    ) -> (r: Result<u64, ContractError>)
        requires
            old(self).wf(),
            old(self).invoices@.len() < u64::MAX,
        ensures
            final(self).wf(),
            r == (if !auths.authorized(merchant) {
                Err::<u64, ContractError>(ContractError::NotAuthorized)
            } else if old(self).paused {
                Err::<u64, ContractError>(ContractError::ContractPaused)
            } else if amount <= 0 || amount > MAX_INVOICE_AMOUNT {
                Err::<u64, ContractError>(ContractError::InvalidAmount)
            } else if !old(self).registered(merchant) {
                Err::<u64, ContractError>(ContractError::NotAuthorized)
            } else {
                Ok::<u64, ContractError>((old(self).invoices@.len() + 1) as u64)
            }),
            r is Err ==> *final(self) == *old(self),
            r is Ok ==> *final(self) == (Shade {
                invoices: final(self).invoices,
                events: final(self).events,
                ..*old(self)
            }),
            r is Ok ==> final(self).invoices@.len() == old(self).invoices@.len() + 1
                && final(self).invoices@.subrange(0, old(self).invoices@.len() as int) == old(
                self,
            ).invoices@ && invoice_eq(
                final(self).invoices@.last(),
                (Invoice {
                    id: (old(self).invoices@.len() + 1) as u64,
                    description,
                    amount,
                    token,
                    status: InvoiceStatus::Pending,
                    merchant_id: (old(self).merchant_index(merchant) + 1) as u64,
                    payer: Option::None,
                    date_created: now,
                    date_paid: Option::None,
                    amount_refunded: 0,
                }),
            ),
            r is Ok ==> final(self).events@ == old(self).events@.push(
                ShadeEvent::InvoiceCreated(
                    InvoiceCreatedEvent {
                        invoice_id: (old(self).invoices@.len() + 1) as u64,
                        merchant,
                        amount,
                        token,
                    },
                ),
            ),
    {
        if !auths.contains(merchant) {
            return Err(ContractError::NotAuthorized);
        }
        if self.paused {
            return Err(ContractError::ContractPaused);
        }
        if amount <= 0 || amount > MAX_INVOICE_AMOUNT {
            return Err(ContractError::InvalidAmount);
        }
        let midx = match self.find_merchant(merchant) {
            Option::Some(j) => j,
            Option::None => {
                return Err(ContractError::NotAuthorized);
            },
        };
        proof {
            old(self).lemma_merchant_index(merchant, midx as int);
        }
        let _n_merchants = self.merchants.len();
        let merchant_id = (midx + 1) as u64;
        let id = self.invoices.len() as u64 + 1;
        let ghost s0 = self.invoices@;
        self.invoices.push(Invoice {
            id,
            description,
            amount,
            token,
            status: InvoiceStatus::Pending,
            merchant_id,
            payer: Option::None,
            date_created: now,
            date_paid: Option::None,
            amount_refunded: 0,
        });
        self.events.push(ShadeEvent::InvoiceCreated(InvoiceCreatedEvent {
            invoice_id: id,
            merchant,
            amount,
            token,
        }));
        proof {
            assert(self.invoices@.subrange(0, s0.len() as int) =~= s0);
            assert forall|i: int|
                0 <= i < self.invoices@.len() implies #[trigger] invoice_valid(
                self.invoices@[i],
                i,
                self.merchants@.len() as int,
            ) by {
                if i < s0.len() {
                    assert(invoice_valid(old(self).invoices@[i], i, old(self).merchants@.len() as int));
                }
            }
        }
        Ok(id)
    }

    /// The registry index of the merchant registered under `address`,
    /// assuming there is one.
    pub open spec fn merchant_index(self, address: u64) -> int {
        choose|j: int|
            0 <= j < self.merchants@.len() && #[trigger] self.merchants@[j].address == address
    }

    /// Under the registry invariant, an index holding `address` is the only
    /// one, so it is the chosen one.
    pub proof fn lemma_merchant_index(self, address: u64, j: int)
        requires
            self.wf(),
            0 <= j < self.merchants@.len(),
            self.merchants@[j].address == address,
        ensures
            self.merchant_index(address) == j,
            self.registered(address),
    {
        let c = self.merchant_index(address);
        assert(self.merchants@[j].address == address);
        if c != j {
            assert(self.merchants@[c].address != self.merchants@[j].address);
        }
    }

    /// The invoice record with the given id.
    pub fn get_invoice(&self, invoice_id: u64) -> (r: Result<Invoice, ContractError>)
        ensures
            r is Ok <==> 1 <= invoice_id <= self.invoices@.len(),
            r is Ok ==> invoice_eq(r->Ok_0, self.invoices@[invoice_id - 1]),
            r is Err ==> r == Err::<Invoice, ContractError>(ContractError::InvoiceNotFound),
    {
        if invoice_id == 0 || invoice_id > self.invoices.len() as u64 {
            return Err(ContractError::InvoiceNotFound);
        }
        Ok(clone_invoice(&self.invoices[(invoice_id - 1) as usize]))
    }

    /// Every invoice passing the filter, in creation order.
    pub fn get_invoices(&self, filter: InvoiceFilter) -> (r: Vec<Invoice>)
        requires
            self.wf(),
        ensures
            r@.len() == filtered_invoices(self.invoices@, self.merchants@, filter).len(),
            forall|i: int|
                0 <= i < r@.len() ==> invoice_eq(
                    #[trigger] r@[i],
                    filtered_invoices(self.invoices@, self.merchants@, filter)[i],
                ),
    {
        let ghost s = self.invoices@;
        let ghost m = self.merchants@;
        let resolved: Option<u64> = match filter.merchant {
            Option::None => Option::None,
            Option::Some(addr) => {
                let _n_merchants = self.merchants.len();
                match self.find_merchant(addr) {
                    Option::Some(j) => {
                        proof {
                            self.lemma_merchant_index(addr, j as int);
                        }
                        Option::Some((j + 1) as u64)
                    },
                    Option::None => Option::None,
                }
            },
        };
        let mut out: Vec<Invoice> = Vec::new();
        let mut k: usize = 0;
        proof {
            reveal(Seq::filter);
            assert(s.take(0) =~= Seq::<Invoice>::empty());
        }
        while k < self.invoices.len()
            invariant
                self.wf(),
                s == self.invoices@,
                m == self.merchants@,
                0 <= k <= s.len(),
                (match filter.merchant {
                    Option::None => resolved is None,
                    Option::Some(addr) => match resolved {
                        Option::Some(mid) => 1 <= mid <= m.len() && m[mid - 1].address == addr,
                        Option::None => !self.registered(addr),
                    },
                }),
                out@.len() == filtered_invoices(s.take(k as int), m, filter).len(),
                forall|i: int|
                    0 <= i < out@.len() ==> invoice_eq(
                        #[trigger] out@[i],
                        filtered_invoices(s.take(k as int), m, filter)[i],
                    ),
            decreases s.len() - k,
        {
            proof {
                reveal(Seq::filter);
                assert(s.take(k as int + 1).drop_last() =~= s.take(k as int));
                assert(s.take(k as int + 1).last() == s[k as int]);
            }
            let inv = &self.invoices[k];
            let ok_status = match filter.status {
                Option::None => true,
                Option::Some(st) => inv.status == st,
            };
            let ok_merchant = match filter.merchant {
                Option::None => true,
                Option::Some(_) => match resolved {
                    Option::Some(mid) => inv.merchant_id == mid,
                    Option::None => false,
                },
            };
            let ok_min = match filter.min_amount {
                Option::None => true,
                Option::Some(mn) => mn <= i128::MAX as u128 && inv.amount >= mn as i128,
            };
            let ok_max = match filter.max_amount {
                Option::None => true,
                Option::Some(mx) => mx > i128::MAX as u128 || inv.amount <= mx as i128,
            };
            proof {
                assert(invoice_valid(s[k as int], k as int, m.len() as int));
                if filter.merchant is Some && resolved is Some {
                    let addr = filter.merchant->Some_0;
                    let mid = resolved->Some_0;
                    let imid = s[k as int].merchant_id;
                    if m[imid - 1].address == addr && imid != mid {
                        assert(m[imid - 1].address != m[mid - 1].address);
                    }
                }
                assert((ok_status && ok_merchant && ok_min && ok_max) == invoice_filter_matches(
                    s[k as int],
                    filter,
                    m,
                ));
            }
            if ok_status && ok_merchant && ok_min && ok_max {
                out.push(clone_invoice(inv));
            }
            k += 1;
        }
        proof {
            assert(s.take(s.len() as int) =~= s);
        }
        out
    }

    /// Pays a `Pending` invoice: splits the amount into the protocol fee,
    /// `floor(amount * fee_bps / 10000)`, moved to the engine's own
    /// address, and the remainder, moved to the merchant's escrow account.
    /// Both transfers and the state update commit together or not at all.
    pub fn pay_invoice(
        &mut self,
        ledger: &mut TokenLedger,
        payer: u64,
        invoice_id: u64,
        auths: &AuthSet,
        now: u64,
    ) -> (r: Result<(), CallError>)
        requires
            old(self).wf(),
            old(ledger).wf(),
        ensures
            final(self).wf(),
            final(ledger).wf(),
            forall|t: u64|
                #[trigger] final(ledger).total_supply(t) == old(ledger).total_supply(t),
            r == old(self).pay_result(*old(ledger), payer, invoice_id, *auths),
            r is Err ==> *final(self) == *old(self) && *final(ledger) == *old(ledger),
            r is Ok ==> *final(self) == (Shade {
                invoices: final(self).invoices,
                events: final(self).events,
                ..*old(self)
            }),
            r is Ok ==> final(self).invoices@ == old(self).invoices@.update(
                invoice_id - 1,
                (Invoice {
                    status: InvoiceStatus::Paid,
                    payer: Option::Some(payer),
                    date_paid: Option::Some(now),
                    ..old(self).invoices@[invoice_id - 1]
                }),
            ),
            r is Ok ==> ({
                let inv = old(self).invoices@[invoice_id - 1];
                let fee = fee_of(inv.amount as int, old(self).fee_bps_of(inv.token) as int);
                final(self).events@ == old(self).events@.push(
                    ShadeEvent::InvoicePaid(
                        InvoicePaidEvent {
                            invoice_id,
                            payer,
                            amount: inv.amount,
                            fee: fee as i128,
                            merchant_amount: (inv.amount - fee) as i128,
                            timestamp: now,
                        },
                    ),
                )
            }),
            r is Ok ==> ({
                let inv = old(self).invoices@[invoice_id - 1];
                let fee = fee_of(inv.amount as int, old(self).fee_bps_of(inv.token) as int);
                let acct = old(self).account_of(
                    old(self).merchants@[inv.merchant_id - 1].address,
                )->Some_0;
                forall|t: u64, h: u64|
                    #[trigger] final(ledger).balance_of(t, h) == old(ledger).balance_of(t, h) - (
                    if t == inv.token && h == payer {
                        inv.amount as int
                    } else {
                        0
                    }) + (
                    if t == inv.token && h == old(self).address {
                        fee
                    } else {
                        0
                    }) + (
                    if t == inv.token && h == acct {
                        inv.amount as int - fee
                    } else {
                        0
                    })
            }),
    {
        if !auths.contains(payer) {
            return Err(CallError::Contract(ContractError::NotAuthorized));
        }
        if self.paused {
            return Err(CallError::Contract(ContractError::ContractPaused));
        }
        if invoice_id == 0 || invoice_id > self.invoices.len() as u64 {
            return Err(CallError::Contract(ContractError::InvoiceNotFound));
        }
        let k = (invoice_id - 1) as usize;
        proof {
            assert(invoice_valid(self.invoices@[k as int], k as int, self.merchants@.len() as int));
        }
        let amount = self.invoices[k].amount;
        let token = self.invoices[k].token;
        let merchant_id = self.invoices[k].merchant_id;
        if !matches!(self.invoices[k].status, InvoiceStatus::Pending) {
            return Err(CallError::Contract(ContractError::InvalidInvoiceStatus));
        }
        if !self.is_accepted_token(token) {
            return Err(CallError::Contract(ContractError::TokenNotAccepted));
        }
        let bps = self.get_fee(token);
        proof {
            lemma_fee_bounds(amount as int, bps as int);
        }
        let fee = (amount * (bps as i128)) / 10000;
        let merchant_amount = amount - fee;
        let _n_merchants = self.merchants.len();
        let midx = (merchant_id - 1) as usize;
        let merchant_addr = self.merchants[midx].address;
        let acct = match self.find_account(merchant_addr) {
            Option::Some(a) => a,
            Option::None => {
                return Err(CallError::Contract(ContractError::MerchantAccountNotSet));
            },
        };
        let bal = ledger.balance(token, payer);
        if bal < amount {
            return Err(CallError::Token(TokenError::InsufficientBalance));
        }
        let ghost l0 = *ledger;
        if fee > 0 {
            // The balance check above covers the fee, so this transfer
            // cannot fail; the arm is proven unreachable.
            match ledger.transfer(token, payer, self.address, fee) {
                Ok(()) => {},
                Err(_) => {
                    proof {
                        assert(false);
                    }
                    return Err(CallError::Token(TokenError::InsufficientBalance));
                },
            }
        }
        let ghost l1 = *ledger;
        if merchant_amount > 0 {
            // After the fee left, the payer still covers the remainder, so
            // this transfer cannot fail either: the whole payment commits.
            proof {
                assert(l1.balance_of(token, payer) >= merchant_amount as int);
            }
            match ledger.transfer(token, payer, acct, merchant_amount) {
                Ok(()) => {},
                Err(_) => {
                    proof {
                        assert(false);
                    }
                    return Err(CallError::Token(TokenError::InsufficientBalance));
                },
            }
        }
        let slot = vstd::std_specs::vec::vec_index_mut(&mut self.invoices, k);
        slot.status = InvoiceStatus::Paid;
        slot.payer = Option::Some(payer);
        slot.date_paid = Option::Some(now);
        self.events.push(ShadeEvent::InvoicePaid(InvoicePaidEvent {
            invoice_id,
            payer,
            amount,
            fee,
            merchant_amount,
            timestamp: now,
        }));
        proof {
            assert forall|t: u64, h: u64|
                #[trigger] ledger.balance_of(t, h) == l0.balance_of(t, h) - (
            if t == token && h == payer {
                amount as int
            } else {
                0
            }) + (
            if t == token && h == old(self).address {
                fee as int
            } else {
                0
            }) + (
            if t == token && h == acct {
                amount as int - fee as int
            } else {
                0
            }) by {
                assert(l1.balance_of(t, h) == l0.balance_of(t, h) - (
                if t == token && h == payer {
                    fee as int
                } else {
                    0
                }) + (
                if t == token && h == old(self).address {
                    fee as int
                } else {
                    0
                }));
            }
            assert forall|i: int|
                0 <= i < self.invoices@.len() implies #[trigger] invoice_valid(
                self.invoices@[i],
                i,
                self.merchants@.len() as int,
            ) by {
                assert(invoice_valid(old(self).invoices@[i], i, old(self).merchants@.len() as int));
            }
        }
        Ok(())
    }

    /// Whether `refund_invoice_partial` commits, and the error it rejects
    /// with when it does not: the engine's own checks come first, then the
    /// escrow account's, then the ledger's, exactly as the call travels.
    pub open spec fn refund_partial_result(
        self,
        ledger: TokenLedger,
        account: MerchantAccount,
        invoice_id: u64,
        amount: i128,
        auths: AuthSet,
        now: u64,
    ) -> Result<(), CallError> {
        if !(1 <= invoice_id <= self.invoices@.len()) {
            Err(CallError::Contract(ContractError::InvoiceNotFound))
        } else {
            let inv = self.invoices@[invoice_id - 1];
            let maddr = self.merchants@[inv.merchant_id - 1].address;
            if !auths.authorized(maddr) {
                Err(CallError::Contract(ContractError::NotAuthorized))
            } else if self.paused {
                Err(CallError::Contract(ContractError::ContractPaused))
            } else if !(inv.status == InvoiceStatus::Paid || inv.status
                == InvoiceStatus::PartiallyRefunded) {
                Err(CallError::Contract(ContractError::InvalidInvoiceStatus))
            } else if amount <= 0 || inv.amount_refunded + amount > inv.amount {
                Err(CallError::Contract(ContractError::InvalidAmount))
            } else if inv.date_paid is None {
                Err(CallError::Contract(ContractError::RefundPeriodExpired))
            } else if now < inv.date_paid->Some_0 || now - inv.date_paid->Some_0
                > MAX_REFUND_DURATION as int {
                Err(CallError::Contract(ContractError::RefundPeriodExpired))
            } else if self.account_of(maddr) is None {
                Err(CallError::Contract(ContractError::MerchantAccountNotFound))
            } else if !account.initialized {
                Err(CallError::Account(AccountError::NotInitialized))
            } else if account.manager != self.address {
                Err(CallError::Account(AccountError::NotAuthorized))
            } else if account.restricted {
                Err(CallError::Account(AccountError::AccountRestricted))
            } else {
                match ledger.transfer_result(inv.token, account.address, amount) {
                    Ok(()) => Ok(()),
                    Err(e) => Err(CallError::Account(AccountError::Token(e))),
                }
            }
        }
    }

    /// Refunds `amount` of an invoice back to its payer, out of the owning
    /// merchant's escrow account, within the refund window. The invoice
    /// moves to `PartiallyRefunded`, or to `Refunded` once the cumulative
    /// refund covers the full amount. The escrow transfer and the state
    /// update commit together or not at all.
    pub fn refund_invoice_partial(
        &mut self,
        ledger: &mut TokenLedger,
        account: &mut MerchantAccount,
        invoice_id: u64,
        amount: i128,
        auths: &AuthSet,
        now: u64,
    ) -> (r: Result<(), CallError>)
        requires
            old(self).wf(),
            old(ledger).wf(),
            old(account).wf(),
            old(self).routes_to(*old(account), invoice_id),
        ensures
            final(self).wf(),
            final(ledger).wf(),
            final(account).wf(),
            forall|t: u64|
                #[trigger] final(ledger).total_supply(t) == old(ledger).total_supply(t),
            r == old(self).refund_partial_result(
                *old(ledger),
                *old(account),
                invoice_id,
                amount,
                *auths,
                now,
            ),
            r is Err ==> *final(self) == *old(self) && *final(ledger) == *old(ledger)
                && *final(account) == *old(account),
            r is Ok ==> *final(self) == (Shade {
                invoices: final(self).invoices,
                events: final(self).events,
                ..*old(self)
            }),
            r is Ok ==> ({
                let inv = old(self).invoices@[invoice_id - 1];
                let fully = inv.amount_refunded + amount == inv.amount;
                final(self).invoices@ == old(self).invoices@.update(
                    invoice_id - 1,
                    (Invoice {
                        status: (if fully {
                            InvoiceStatus::Refunded
                        } else {
                            InvoiceStatus::PartiallyRefunded
                        }),
                        amount_refunded: (inv.amount_refunded + amount) as i128,
                        ..inv
                    }),
                )
            }),
            r is Ok ==> ({
                let inv = old(self).invoices@[invoice_id - 1];
                let maddr = old(self).merchants@[inv.merchant_id - 1].address;
                let fully = inv.amount_refunded + amount == inv.amount;
                final(self).events@ == old(self).events@.push(
                    if fully {
                        ShadeEvent::InvoiceRefunded(
                            InvoiceRefundedEvent {
                                invoice_id,
                                merchant: maddr,
                                amount,
                                timestamp: now,
                            },
                        )
                    } else {
                        ShadeEvent::InvoicePartiallyRefunded(
                            InvoicePartiallyRefundedEvent {
                                invoice_id,
                                merchant: maddr,
                                amount,
                                amount_refunded: (inv.amount_refunded + amount) as i128,
                                timestamp: now,
                            },
                        )
                    },
                )
            }),
            r is Ok ==> crate::account::same_except_events(*old(account), *final(account)),
            r is Ok ==> ({
                let inv = old(self).invoices@[invoice_id - 1];
                final(account).events@ == old(account).events@.push(
                    crate::events::AccountEvent::RefundProcessed(
                        crate::events::RefundProcessedEvent {
                            token: inv.token,
                            amount,
                            recipient: inv.payer->Some_0,
                            timestamp: now,
                        },
                    ),
                )
            }),
            r is Ok ==> ({
                let inv = old(self).invoices@[invoice_id - 1];
                forall|t: u64, h: u64|
                    #[trigger] final(ledger).balance_of(t, h) == old(ledger).balance_of(t, h) - (
                    if t == inv.token && h == old(account).address {
                        amount as int
                    } else {
                        0
                    }) + (
                    if t == inv.token && h == inv.payer->Some_0 {
                        amount as int
                    } else {
                        0
                    })
            }),
    {
        if invoice_id == 0 || invoice_id > self.invoices.len() as u64 {
            return Err(CallError::Contract(ContractError::InvoiceNotFound));
        }
        let k = (invoice_id - 1) as usize;
        proof {
            assert(invoice_valid(self.invoices@[k as int], k as int, self.merchants@.len() as int));
        }
        let _n_merchants = self.merchants.len();
        let midx = (self.invoices[k].merchant_id - 1) as usize;
        let maddr = self.merchants[midx].address;
        if !auths.contains(maddr) {
            return Err(CallError::Contract(ContractError::NotAuthorized));
        }
        if self.paused {
            return Err(CallError::Contract(ContractError::ContractPaused));
        }
        let status_ok = matches!(self.invoices[k].status, InvoiceStatus::Paid)
            || matches!(self.invoices[k].status, InvoiceStatus::PartiallyRefunded);
        if !status_ok {
            return Err(CallError::Contract(ContractError::InvalidInvoiceStatus));
        }
        let total = self.invoices[k].amount;
        let refunded = self.invoices[k].amount_refunded;
        if amount <= 0 || amount > total - refunded {
            return Err(CallError::Contract(ContractError::InvalidAmount));
        }
        let date_paid = match self.invoices[k].date_paid {
            Option::Some(d) => d,
            Option::None => {
                return Err(CallError::Contract(ContractError::RefundPeriodExpired));
            },
        };
        if now < date_paid || now - date_paid > MAX_REFUND_DURATION {
            return Err(CallError::Contract(ContractError::RefundPeriodExpired));
        }
        // A refundable invoice was paid, and the invariant keeps a payer on
        // every paid invoice, so this arm is proven unreachable.
        let payer = match self.invoices[k].payer {
            Option::Some(p) => p,
            Option::None => {
                proof {
                    assert(false);
                }
                return Err(CallError::Contract(ContractError::RefundPeriodExpired));
            },
        };
        let token = self.invoices[k].token;
        if self.find_account(maddr).is_none() {
            return Err(CallError::Contract(ContractError::MerchantAccountNotFound));
        }
        let mut engine_ids: Vec<u64> = Vec::new();
        engine_ids.push(self.address);
        let ghost ids_view = engine_ids@;
        let engine_auth = AuthSet::new(engine_ids);
        proof {
            assert forall|x: u64| ids_view.contains(x) implies x == self.address by {
                let i = choose|i: int| 0 <= i < ids_view.len() && ids_view[i] == x;
            }
            assert(ids_view[0] == self.address);
        }
        match account.refund(ledger, token, amount, payer, &engine_auth, now) {
            Ok(()) => {},
            Err(e) => {
                return Err(CallError::Account(e));
            },
        }
        let fully = amount == total - refunded;
        let slot = vstd::std_specs::vec::vec_index_mut(&mut self.invoices, k);
        slot.amount_refunded = refunded + amount;
        slot.status = if fully {
            InvoiceStatus::Refunded
        } else {
            InvoiceStatus::PartiallyRefunded
        };
        self.events.push(
            if fully {
                ShadeEvent::InvoiceRefunded(InvoiceRefundedEvent {
                    invoice_id,
                    merchant: maddr,
                    amount,
                    timestamp: now,
                })
            } else {
                ShadeEvent::InvoicePartiallyRefunded(InvoicePartiallyRefundedEvent {
                    invoice_id,
                    merchant: maddr,
                    amount,
                    amount_refunded: refunded + amount,
                    timestamp: now,
                })
            },
        );
        proof {
            assert forall|i: int|
                0 <= i < self.invoices@.len() implies #[trigger] invoice_valid(
                self.invoices@[i],
                i,
                self.merchants@.len() as int,
            ) by {
                assert(invoice_valid(old(self).invoices@[i], i, old(self).merchants@.len() as int));
            }
        }
        Ok(())
    }

    /// Refunds the whole outstanding remainder of an invoice to its payer.
    pub fn refund_invoice(
        &mut self,
        ledger: &mut TokenLedger,
        account: &mut MerchantAccount,
        merchant: u64,
        invoice_id: u64,
        auths: &AuthSet,
        now: u64,
    ) -> (r: Result<(), CallError>)
        requires
            old(self).wf(),
            old(ledger).wf(),
            old(account).wf(),
            old(self).routes_to(*old(account), invoice_id),
        ensures
            final(self).wf(),
            final(ledger).wf(),
            final(account).wf(),
            forall|t: u64|
                #[trigger] final(ledger).total_supply(t) == old(ledger).total_supply(t),
            r == (if !auths.authorized(merchant) {
                Err::<(), CallError>(CallError::Contract(ContractError::NotAuthorized))
            } else if !(1 <= invoice_id <= old(self).invoices@.len()) {
                Err::<(), CallError>(CallError::Contract(ContractError::InvoiceNotFound))
            } else if !old(self).registered(merchant) || old(self).merchants@[
                old(self).invoices@[invoice_id - 1].merchant_id - 1
            ].address != merchant {
                Err::<(), CallError>(CallError::Contract(ContractError::NotAuthorized))
            } else if old(self).invoices@[invoice_id - 1].amount - old(self).invoices@[
                invoice_id - 1
            ].amount_refunded <= 0 {
                Err::<(), CallError>(CallError::Contract(ContractError::InvalidAmount))
            } else {
                old(self).refund_partial_result(
                    *old(ledger),
                    *old(account),
                    invoice_id,
                    (old(self).invoices@[invoice_id - 1].amount - old(self).invoices@[
                        invoice_id - 1
                    ].amount_refunded) as i128,
                    *auths,
                    now,
                )
            }),
            r is Err ==> *final(self) == *old(self) && *final(ledger) == *old(ledger)
                && *final(account) == *old(account),
            r is Ok ==> ({
                let inv = old(self).invoices@[invoice_id - 1];
                let maddr = old(self).merchants@[inv.merchant_id - 1].address;
                let amount = inv.amount - inv.amount_refunded;
                &&& *final(self) == (Shade {
                    invoices: final(self).invoices,
                    events: final(self).events,
                    ..*old(self)
                })
                &&& final(self).invoices@ == old(self).invoices@.update(
                    invoice_id - 1,
                    (Invoice {
                        status: InvoiceStatus::Refunded,
                        amount_refunded: inv.amount,
                        ..inv
                    }),
                )
                &&& final(self).events@ == old(self).events@.push(
                    ShadeEvent::InvoiceRefunded(
                        InvoiceRefundedEvent {
                            invoice_id,
                            merchant: maddr,
                            amount: amount as i128,
                            timestamp: now,
                        },
                    ),
                )
                &&& crate::account::same_except_events(*old(account), *final(account))
                &&& final(account).events@ == old(account).events@.push(
                    crate::events::AccountEvent::RefundProcessed(
                        crate::events::RefundProcessedEvent {
                            token: inv.token,
                            amount: amount as i128,
                            recipient: inv.payer->Some_0,
                            timestamp: now,
                        },
                    ),
                )
                &&& forall|t: u64, h: u64|
                    #[trigger] final(ledger).balance_of(t, h) == old(ledger).balance_of(t, h) - (
                    if t == inv.token && h == old(account).address {
                        amount
                    } else {
                        0
                    }) + (
                    if t == inv.token && h == inv.payer->Some_0 {
                        amount
                    } else {
                        0
                    })
            }),
    {
        if !auths.contains(merchant) {
            return Err(CallError::Contract(ContractError::NotAuthorized));
        }
        if invoice_id == 0 || invoice_id > self.invoices.len() as u64 {
            return Err(CallError::Contract(ContractError::InvoiceNotFound));
        }
        let k = (invoice_id - 1) as usize;
        proof {
            assert(invoice_valid(self.invoices@[k as int], k as int, self.merchants@.len() as int));
        }
        let _n_merchants = self.merchants.len();
        let midx = (self.invoices[k].merchant_id - 1) as usize;
        let found = self.find_merchant(merchant);
        let owner_matches = match found {
            Option::Some(j) => j == midx,
            Option::None => false,
        };
        proof {
            match found {
                Option::Some(j) => {
                    self.lemma_merchant_index(merchant, j as int);
                    if self.merchants@[midx as int].address == merchant {
                        self.lemma_merchant_index(merchant, midx as int);
                    }
                },
                Option::None => {},
            }
        }
        if !owner_matches {
            return Err(CallError::Contract(ContractError::NotAuthorized));
        }
        let remaining = self.invoices[k].amount - self.invoices[k].amount_refunded;
        if remaining <= 0 {
            return Err(CallError::Contract(ContractError::InvalidAmount));
        }
        self.refund_invoice_partial(ledger, account, invoice_id, remaining, auths, now)
    }

    /// Cancels a `Pending` invoice of the authenticated merchant.
    pub fn void_invoice(&mut self, merchant: u64, invoice_id: u64, auths: &AuthSet, now: u64)
        -> (r: Result<(), ContractError>)
        requires
            old(self).wf(),
        ensures
            final(self).wf(),
            r == (if !auths.authorized(merchant) {
                Err::<(), ContractError>(ContractError::NotAuthorized)
            } else if old(self).paused {
                Err::<(), ContractError>(ContractError::ContractPaused)
            } else if !(1 <= invoice_id <= old(self).invoices@.len()) {
                Err::<(), ContractError>(ContractError::InvoiceNotFound)
            } else if !old(self).registered(merchant) || old(self).merchants@[
                old(self).invoices@[invoice_id - 1].merchant_id - 1
            ].address != merchant {
                Err::<(), ContractError>(ContractError::NotAuthorized)
            } else if old(self).invoices@[invoice_id - 1].status != InvoiceStatus::Pending {
                Err::<(), ContractError>(ContractError::InvalidInvoiceStatus)
            } else {
                Ok::<(), ContractError>(())
            }),
            r is Err ==> *final(self) == *old(self),
            r is Ok ==> *final(self) == (Shade {
                invoices: final(self).invoices,
                events: final(self).events,
                ..*old(self)
            }),
            r is Ok ==> final(self).invoices@ == old(self).invoices@.update(
                invoice_id - 1,
                (Invoice {
                    status: InvoiceStatus::Cancelled,
                    ..old(self).invoices@[invoice_id - 1]
                }),
            ),
            r is Ok ==> final(self).events@ == old(self).events@.push(
                ShadeEvent::InvoiceCancelled(
                    InvoiceCancelledEvent { invoice_id, merchant, timestamp: now },
                ),
            ),
    {
        if !auths.contains(merchant) {
            return Err(ContractError::NotAuthorized);
        }
        if self.paused {
            return Err(ContractError::ContractPaused);
        }
        if invoice_id == 0 || invoice_id > self.invoices.len() as u64 {
            return Err(ContractError::InvoiceNotFound);
        }
        let k = (invoice_id - 1) as usize;
        proof {
            assert(invoice_valid(self.invoices@[k as int], k as int, self.merchants@.len() as int));
        }
        let merchant_id = self.invoices[k].merchant_id;
        let _n_merchants = self.merchants.len();
        let midx = (merchant_id - 1) as usize;
        let found = self.find_merchant(merchant);
        let owner_matches = match found {
            Option::Some(j) => j == midx,
            Option::None => false,
        };
        proof {
            match found {
                Option::Some(j) => {
                    self.lemma_merchant_index(merchant, j as int);
                    if self.merchants@[midx as int].address == merchant {
                        self.lemma_merchant_index(merchant, midx as int);
                    }
                },
                Option::None => {},
            }
        }
        if !owner_matches {
            return Err(ContractError::NotAuthorized);
        }
        if !matches!(self.invoices[k].status, InvoiceStatus::Pending) {
            return Err(ContractError::InvalidInvoiceStatus);
        }
        let slot = vstd::std_specs::vec::vec_index_mut(&mut self.invoices, k);
        slot.status = InvoiceStatus::Cancelled;
        self.events.push(ShadeEvent::InvoiceCancelled(InvoiceCancelledEvent {
            invoice_id,
            merchant,
            timestamp: now,
        }));
        proof {
            assert forall|i: int|
                0 <= i < self.invoices@.len() implies #[trigger] invoice_valid(
                self.invoices@[i],
                i,
                self.merchants@.len() as int,
            ) by {
                assert(invoice_valid(old(self).invoices@[i], i, old(self).merchants@.len() as int));
            }
        }
        Ok(())
    }
}

} // verus!
