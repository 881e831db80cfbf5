//! Engine-wide laws: properties that hold of every reachable state, proved
//! once here over the same spec functions the entry points' contracts use.

use crate::invoice::{fee_of, lemma_fee_bounds};
use crate::shade::{invoice_valid, lemma_push_contains, Shade, MAX_INVOICE_AMOUNT};
use crate::types::{InvoiceStatus, Role};
use vstd::prelude::*;

verus! {

/// In every well-formed engine state, each invoice's cumulative refund
/// lies between zero and its amount, and the invoice is `Refunded` exactly
/// when the refund covers the whole amount.
pub proof fn lemma_refund_bounds(s: Shade, i: int)
    requires
        s.wf(),
        0 <= i < s.invoices@.len(),
    ensures
        0 <= s.invoices@[i].amount_refunded <= s.invoices@[i].amount,
        (s.invoices@[i].status == InvoiceStatus::Refunded) <==> (s.invoices@[i].amount_refunded
            == s.invoices@[i].amount),
{
    assert(invoice_valid(s.invoices@[i], i, s.merchants@.len() as int));
}

/// The fee split is exact for every amount the engine stores and every
/// rate it accepts: the protocol fee is `floor(amount * bps / 10000)`, it
/// lies between zero and the amount, and fee and merchant amount together
/// cover the amount.
pub proof fn lemma_fee_split(amount: int, bps: int)
    requires
        0 < amount <= MAX_INVOICE_AMOUNT as int,
        0 <= bps <= 10000,
    ensures
        0 <= fee_of(amount, bps) <= amount,
        fee_of(amount, bps) + (amount - fee_of(amount, bps)) == amount,
        bps == 10000 ==> fee_of(amount, bps) == amount,
        bps == 0 ==> fee_of(amount, bps) == 0,
{
    lemma_fee_bounds(amount, bps);
    if bps == 10000 {
        vstd::arithmetic::div_mod::lemma_div_multiples_vanish(amount, 10000);
        assert(10000 * amount == amount * 10000);
    }
}

/// Adding a token to an escrow account is idempotent. `add_token`'s
/// contract takes a tracked-token list `s0` to
/// `if s0.contains(token) { s0 } else { s0.push(token) }` and appends an
/// event exactly when the list grew; so over two successful adds of the
/// same token, the token is tracked after the first, the second changes
/// nothing, and the count grows by exactly one when the token was new and
/// by zero when it was not.
pub proof fn lemma_add_token_idempotent(s0: Seq<u64>, token: u64)
    ensures
        ({
            let s1 = if s0.contains(token) {
                s0
            } else {
                s0.push(token)
            };
            let s2 = if s1.contains(token) {
                s1
            } else {
                s1.push(token)
            };
            &&& s1.contains(token)
            &&& s2 == s1
            &&& (!s0.contains(token) ==> s1.len() == s0.len() + 1)
            &&& (s0.contains(token) ==> s1 == s0)
        }),
{
    lemma_push_contains(s0, token);
}

/// Admin supremacy: in every initialized engine state the configured admin
/// identity holds every role, with no explicit grant needed.
pub proof fn lemma_admin_supremacy(s: Shade, role: Role)
    requires
        s.initialized,
    ensures
        s.has_role_spec(s.admin_id(), role),
{
}

} // verus!
