//! Model of the fungible-token ledger that holds the real balances.
//!
//! The engine treats the ledger as another state machine invoked
//! synchronously: a transfer either commits in full or fails and changes
//! nothing. Balances are held per `(token, holder)` pair; the ledger keeps
//! every balance non-negative and every token's total supply representable,
//! so a transfer can only fail for a negative amount or an insufficient
//! sender balance.

use crate::errors::TokenError;
use vstd::prelude::*;

verus! {

/// One balance of the ledger.
#[derive(Clone, Copy, Debug, PartialEq, Eq, Structural)]
struct LedgerEntry {
    token: u64,
    holder: u64,
    amount: i128,
}

/// What one entry adds to the balance of `(t, h)`.
spec fn gain(e: LedgerEntry, t: u64, h: u64) -> int {
    if e.token == t && e.holder == h {
        e.amount as int
    } else {
        0
    }
}

/// What one entry adds to the total supply of `t`.
spec fn gain_total(e: LedgerEntry, t: u64) -> int {
    if e.token == t {
        e.amount as int
    } else {
        0
    }
}

/// The balance of `(t, h)` recorded in `s`.
spec fn sum_for(s: Seq<LedgerEntry>, t: u64, h: u64) -> int
    decreases s.len(),
{
    if s.len() == 0 {
        0
    } else {
        sum_for(s.drop_last(), t, h) + gain(s.last(), t, h)
    }
}

/// The total supply of `t` recorded in `s`.
spec fn total_for(s: Seq<LedgerEntry>, t: u64) -> int
    decreases s.len(),
{
    if s.len() == 0 {
        0
    } else {
        total_for(s.drop_last(), t) + gain_total(s.last(), t)
    }
}

/// At most one entry per `(token, holder)` pair, and no negative balance.
spec fn entries_ok(s: Seq<LedgerEntry>) -> bool {
    &&& forall|i: int, j: int|
        0 <= i < j < s.len() ==> !(#[trigger] s[i].token == #[trigger] s[j].token
            && s[i].holder == s[j].holder)
    &&& forall|i: int| 0 <= i < s.len() ==> #[trigger] s[i].amount >= 0
}

/// The fungible-token ledger.
pub struct TokenLedger {
    entries: Vec<LedgerEntry>,
}

impl TokenLedger {
    /// The balance of `holder` in `token`.
    pub closed spec fn balance_of(self, token: u64, holder: u64) -> int {
        sum_for(self.entries@, token, holder)
    }

    /// The total supply of `token`: the sum of all balances held in it.
    pub closed spec fn total_supply(self, token: u64) -> int {
        total_for(self.entries@, token)
    }

    /// The ledger's invariant: one entry per `(token, holder)` pair, no
    /// negative balance, and every token's total supply representable.
    pub closed spec fn wf(self) -> bool {
        &&& entries_ok(self.entries@)
        &&& forall|t: u64| #[trigger] total_for(self.entries@, t) <= i128::MAX as int
    }

    /// Whether a transfer of `amount` of `token` out of `from` commits, and
    /// the error it is rejected with when it does not.
    pub open spec fn transfer_result(self, token: u64, from: u64, amount: i128) -> Result<
        (),
        TokenError,
    > {
        if amount < 0 {
            Err(TokenError::NegativeAmount)
        } else if self.balance_of(token, from) < amount {
            Err(TokenError::InsufficientBalance)
        } else {
            Ok(())
        }
    }

    /// An empty ledger: every balance is zero.
    pub fn new() -> (r: TokenLedger)
        ensures
            r.wf(),
            forall|t: u64, h: u64| #[trigger] r.balance_of(t, h) == 0,
            forall|t: u64| #[trigger] r.total_supply(t) == 0,
    {
        TokenLedger { entries: Vec::new() }
    }

    /// The index of the entry for `(token, holder)`, if there is one.
    fn find(&self, token: u64, holder: u64) -> (r: Option<usize>)
        ensures
            match r {
                Some(k) => k < self.entries@.len() && self.entries@[k as int].token == token
                    && self.entries@[k as int].holder == holder,
                None => forall|i: int|
                    0 <= i < self.entries@.len() ==> !(#[trigger] self.entries@[i].token == token
                        && self.entries@[i].holder == holder),
            },
    {
        let mut k: usize = 0;
        while k < self.entries.len()
            invariant
                0 <= k <= self.entries@.len(),
                forall|i: int|
                    0 <= i < k ==> !(#[trigger] self.entries@[i].token == token
                        && self.entries@[i].holder == holder),
            decreases self.entries@.len() - k,
        {
            let e = self.entries[k];
            if e.token == token && e.holder == holder {
                return Some(k);
            }
            k += 1;
        }
        None
    }

    /// The balance of `holder` in `token`.
    pub fn balance(&self, token: u64, holder: u64) -> (r: i128)
        requires
            self.wf(),
        ensures
            r as int == self.balance_of(token, holder),
            r >= 0,
    {
        match self.find(token, holder) {
            Some(k) => {
                proof {
                    lemma_sum_unique_match(self.entries@, k as int, token, holder);
                }
                self.entries[k].amount
            },
            None => {
                proof {
                    lemma_sum_no_match(self.entries@, token, holder);
                }
                0
            },
        }
    }

    /// Lowers the balance of `(token, holder)` by `amount`; every other
    /// balance and every other total is untouched.
    fn debit(&mut self, token: u64, holder: u64, amount: i128)
        requires
            old(self).wf(),
            0 < amount,
            old(self).balance_of(token, holder) >= amount,
        ensures
            final(self).wf(),
            forall|t: u64, h: u64|
                #[trigger] final(self).balance_of(t, h) == old(self).balance_of(t, h) - (
                if t == token && h == holder {
                    amount as int
                } else {
                    0
                }),
            forall|t: u64|
                #[trigger] final(self).total_supply(t) == old(self).total_supply(t) - (
                if t == token {
                    amount as int
                } else {
                    0
                }),
    {
        let ghost s0 = self.entries@;
        proof {
            if forall|i: int|
                0 <= i < s0.len() ==> !(#[trigger] s0[i].token == token && s0[i].holder
                    == holder) {
                lemma_sum_no_match(s0, token, holder);
            }
        }
        let k = self.find(token, holder).unwrap();
        proof {
            lemma_sum_unique_match(s0, k as int, token, holder);
        }
        let e = self.entries[k];
        let updated = LedgerEntry { token: e.token, holder: e.holder, amount: e.amount - amount };
        let slot = vstd::std_specs::vec::vec_index_mut(&mut self.entries, k);
        *slot = updated;
        proof {
            lemma_sum_update(s0, k as int, updated);
        }
    }

    /// Raises the balance of `(token, holder)` by `amount`; every other
    /// balance and every other total is untouched.
    fn credit(&mut self, token: u64, holder: u64, amount: i128)
        requires
            old(self).wf(),
            0 <= amount,
            old(self).balance_of(token, holder) + amount <= i128::MAX as int,
            old(self).total_supply(token) + amount <= i128::MAX as int,
        ensures
            final(self).wf(),
            forall|t: u64, h: u64|
                #[trigger] final(self).balance_of(t, h) == old(self).balance_of(t, h) + (
                if t == token && h == holder {
                    amount as int
                } else {
                    0
                }),
            forall|t: u64|
                #[trigger] final(self).total_supply(t) == old(self).total_supply(t) + (
                if t == token {
                    amount as int
                } else {
                    0
                }),
    {
        let ghost s0 = self.entries@;
        match self.find(token, holder) {
            Some(k) => {
                proof {
                    lemma_sum_unique_match(s0, k as int, token, holder);
                }
                let e = self.entries[k];
                let updated = LedgerEntry {
                    token: e.token,
                    holder: e.holder,
                    amount: e.amount + amount,
                };
                let slot = vstd::std_specs::vec::vec_index_mut(&mut self.entries, k);
                *slot = updated;
                proof {
                    lemma_sum_update(s0, k as int, updated);
                }
            },
            None => {
                proof {
                    lemma_sum_no_match(s0, token, holder);
                }
                self.entries.push(LedgerEntry { token, holder, amount });
                proof {
                    lemma_sum_push(s0, LedgerEntry { token, holder, amount });
                    assert(self.entries@.drop_last() =~= s0);
                }
            },
        }
    }

    /// Moves `amount` of `token` from `from` to `to`. Commits in full or
    /// fails without touching any balance: it fails exactly on a negative
    /// amount or an insufficient sender balance.
    pub fn transfer(&mut self, token: u64, from: u64, to: u64, amount: i128) -> (r: Result<
        (),
        TokenError,
    >)
        requires
            old(self).wf(),
        ensures
            final(self).wf(),
            r == old(self).transfer_result(token, from, amount),
            r is Err ==> *final(self) == *old(self),
            r is Ok ==> forall|t: u64, h: u64|
                #[trigger] final(self).balance_of(t, h) == old(self).balance_of(t, h) - (
                if t == token && h == from {
                    amount as int
                } else {
                    0
                }) + (
                if t == token && h == to {
                    amount as int
                } else {
                    0
                }),
            forall|t: u64| #[trigger] final(self).total_supply(t) == old(self).total_supply(t),
    {
        if amount < 0 {
            return Err(TokenError::NegativeAmount);
        }
        let bal = self.balance(token, from);
        if bal < amount {
            return Err(TokenError::InsufficientBalance);
        }
        if amount == 0 || from == to {
            return Ok(());
        }
        proof {
            lemma_sum_two_le_total(self.entries@, token, from, to);
        }
        self.debit(token, from, amount);
        self.credit(token, to, amount);
        Ok(())
    }

    /// Creates `amount` new units of `token` for `to`. Fails exactly on a
    /// negative amount or when the token's total supply would no longer be
    /// representable; on failure no balance changes.
    pub fn mint(&mut self, token: u64, to: u64, amount: i128) -> (r: Result<(), TokenError>)
        requires
            old(self).wf(),
        ensures
            final(self).wf(),
            r == (if amount < 0 {
                Err::<(), TokenError>(TokenError::NegativeAmount)
            } else if old(self).total_supply(token) + amount > i128::MAX as int {
                Err::<(), TokenError>(TokenError::SupplyOverflow)
            } else {
                Ok::<(), TokenError>(())
            }),
            r is Err ==> *final(self) == *old(self),
            r is Ok ==> forall|t: u64, h: u64|
                #[trigger] final(self).balance_of(t, h) == old(self).balance_of(t, h) + (
                if t == token && h == to {
                    amount as int
                } else {
                    0
                }),
            r is Ok ==> forall|t: u64|
                #[trigger] final(self).total_supply(t) == old(self).total_supply(t) + (
                if t == token {
                    amount as int
                } else {
                    0
                }),
    {
        if amount < 0 {
            return Err(TokenError::NegativeAmount);
        }
        let supply = self.supply(token);
        if amount > i128::MAX - supply {
            return Err(TokenError::SupplyOverflow);
        }
        proof {
            lemma_sum_le_total(self.entries@, token, to);
        }
        self.credit(token, to, amount);
        Ok(())
    }

    /// The total supply of `token`.
    pub fn supply(&self, token: u64) -> (r: i128)
        requires
            self.wf(),
        ensures
            r as int == self.total_supply(token),
            r >= 0,
    {
        let ghost s = self.entries@;
        let mut acc: i128 = 0;
        let mut k: usize = 0;
        proof {
            assert(s.take(0) =~= Seq::<LedgerEntry>::empty());
            lemma_total_nonneg(s, token);
        }
        while k < self.entries.len()
            invariant
                self.wf(),
                s == self.entries@,
                0 <= k <= s.len(),
                acc as int == total_for(s.take(k as int), token),
                acc >= 0,
            decreases s.len() - k,
        {
            let e = self.entries[k];
            proof {
                assert(s.take(k as int + 1).drop_last() =~= s.take(k as int));
                assert(s.take(k as int + 1).last() == s[k as int]);
                lemma_total_take_le(s, k as int + 1, token);
            }
            if e.token == token {
                acc = acc + e.amount;
            }
            k += 1;
        }
        proof {
            assert(s.take(s.len() as int) =~= s);
        }
        acc
    }
}

// ---------------------------------------------------------------------------
// Sum lemmas

/// A ledger whose entries are non-negative records non-negative totals.
proof fn lemma_total_nonneg(s: Seq<LedgerEntry>, t: u64)
    requires
        forall|i: int| 0 <= i < s.len() ==> #[trigger] s[i].amount >= 0,
    ensures
        total_for(s, t) >= 0,
    decreases s.len(),
{
    if s.len() > 0 {
        lemma_total_nonneg(s.drop_last(), t);
    }
}

/// Totals only grow along a prefix of non-negative entries.
proof fn lemma_total_take_le(s: Seq<LedgerEntry>, i: int, t: u64)
    requires
        0 <= i <= s.len(),
        forall|k: int| 0 <= k < s.len() ==> #[trigger] s[k].amount >= 0,
    ensures
        total_for(s.take(i), t) <= total_for(s, t),
    decreases s.len() - i,
{
    if i == s.len() {
        assert(s.take(i) =~= s);
    } else {
        assert(s.take(i + 1).drop_last() =~= s.take(i));
        lemma_total_take_le(s, i + 1, t);
    }
}

/// A single balance never exceeds the token's total.
proof fn lemma_sum_le_total(s: Seq<LedgerEntry>, t: u64, h: u64)
    requires
        forall|i: int| 0 <= i < s.len() ==> #[trigger] s[i].amount >= 0,
    ensures
        0 <= sum_for(s, t, h) <= total_for(s, t),
    decreases s.len(),
{
    if s.len() > 0 {
        lemma_sum_le_total(s.drop_last(), t, h);
    }
}

/// Two distinct balances never exceed the token's total together.
proof fn lemma_sum_two_le_total(s: Seq<LedgerEntry>, t: u64, h1: u64, h2: u64)
    requires
        h1 != h2,
        forall|i: int| 0 <= i < s.len() ==> #[trigger] s[i].amount >= 0,
    ensures
        sum_for(s, t, h1) + sum_for(s, t, h2) <= total_for(s, t),
    decreases s.len(),
{
    if s.len() > 0 {
        lemma_sum_two_le_total(s.drop_last(), t, h1, h2);
    }
}

/// With unique `(token, holder)` pairs, the balance of a pair is exactly
/// the amount of its entry.
proof fn lemma_sum_unique_match(s: Seq<LedgerEntry>, k: int, t: u64, h: u64)
    requires
        entries_ok(s),
        0 <= k < s.len(),
        s[k].token == t,
        s[k].holder == h,
    ensures
        sum_for(s, t, h) == s[k].amount as int,
    decreases s.len(),
{
    if k == s.len() - 1 {
        lemma_sum_no_match(s.drop_last(), t, h);
    } else {
        lemma_sum_unique_match(s.drop_last(), k, t, h);
    }
}

/// The balance of a pair with no entry is zero.
proof fn lemma_sum_no_match(s: Seq<LedgerEntry>, t: u64, h: u64)
    requires
        forall|i: int|
            0 <= i < s.len() ==> !(#[trigger] s[i].token == t && s[i].holder == h),
    ensures
        sum_for(s, t, h) == 0,
    decreases s.len(),
{
    if s.len() > 0 {
        lemma_sum_no_match(s.drop_last(), t, h);
    }
}

/// Replacing one entry moves every sum by the difference of the two
/// entries' contributions.
proof fn lemma_sum_update(s: Seq<LedgerEntry>, k: int, e: LedgerEntry)
    requires
        0 <= k < s.len(),
    ensures
        forall|t: u64, h: u64|
            #[trigger] sum_for(s.update(k, e), t, h) == sum_for(s, t, h) - gain(s[k], t, h)
                + gain(e, t, h),
        forall|t: u64|
            #[trigger] total_for(s.update(k, e), t) == total_for(s, t) - gain_total(s[k], t)
                + gain_total(e, t),
    decreases s.len(),
{
    let u = s.update(k, e);
    if k == s.len() - 1 {
        assert(u.drop_last() =~= s.drop_last());
        assert forall|t: u64, h: u64|
            #[trigger] sum_for(u, t, h) == sum_for(s, t, h) - gain(s[k], t, h) + gain(
                e,
                t,
                h,
            ) by {
            assert(sum_for(u, t, h) == sum_for(u.drop_last(), t, h) + gain(u.last(), t, h));
            assert(sum_for(s, t, h) == sum_for(s.drop_last(), t, h) + gain(s.last(), t, h));
        }
        assert forall|t: u64|
            #[trigger] total_for(u, t) == total_for(s, t) - gain_total(s[k], t) + gain_total(
                e,
                t,
            ) by {
            assert(total_for(u, t) == total_for(u.drop_last(), t) + gain_total(u.last(), t));
            assert(total_for(s, t) == total_for(s.drop_last(), t) + gain_total(s.last(), t));
        }
    } else {
        lemma_sum_update(s.drop_last(), k, e);
        assert(u.drop_last() =~= s.drop_last().update(k, e));
        assert forall|t: u64, h: u64|
            #[trigger] sum_for(u, t, h) == sum_for(s, t, h) - gain(s[k], t, h) + gain(
                e,
                t,
                h,
            ) by {
            assert(sum_for(u, t, h) == sum_for(u.drop_last(), t, h) + gain(u.last(), t, h));
            assert(sum_for(s, t, h) == sum_for(s.drop_last(), t, h) + gain(s.last(), t, h));
            assert(sum_for(s.drop_last().update(k, e), t, h) == sum_for(s.drop_last(), t, h)
                - gain(s.drop_last()[k], t, h) + gain(e, t, h));
        }
        assert forall|t: u64|
            #[trigger] total_for(u, t) == total_for(s, t) - gain_total(s[k], t) + gain_total(
                e,
                t,
            ) by {
            assert(total_for(u, t) == total_for(u.drop_last(), t) + gain_total(u.last(), t));
            assert(total_for(s, t) == total_for(s.drop_last(), t) + gain_total(s.last(), t));
            assert(total_for(s.drop_last().update(k, e), t) == total_for(s.drop_last(), t)
                - gain_total(s.drop_last()[k], t) + gain_total(e, t));
        }
    }
}

/// Appending one entry moves every sum by the entry's contribution.
proof fn lemma_sum_push(s: Seq<LedgerEntry>, e: LedgerEntry)
    ensures
        forall|t: u64, h: u64|
            #[trigger] sum_for(s.push(e), t, h) == sum_for(s, t, h) + gain(e, t, h),
        forall|t: u64|
            #[trigger] total_for(s.push(e), t) == total_for(s, t) + gain_total(e, t),
{
    assert(s.push(e).drop_last() =~= s);
}

} // verus!
