//! Admin bookkeeping: the accepted-token allowlist and the per-token fee
//! rate, both admin-only.

use crate::auth::AuthSet;
use crate::errors::ContractError;
use crate::shade::{fee_lookup, lemma_push_contains, lemma_remove_contains, Shade};
use crate::types::FeeEntry;
use vstd::prelude::*;

verus! {

impl Shade {
    /// The index of `token` on the allowlist, if present.
    fn find_accepted(&self, token: u64) -> (r: Option<usize>)
        ensures
            match r {
                Some(k) => k < self.accepted_tokens@.len() && self.accepted_tokens@[k as int]
                    == token,
                None => !self.is_accepted_spec(token),
            },
    {
        let mut k: usize = 0;
        while k < self.accepted_tokens.len()
            invariant
                0 <= k <= self.accepted_tokens@.len(),
                forall|i: int| 0 <= i < k ==> self.accepted_tokens@[i] != token,
            decreases self.accepted_tokens@.len() - k,
        {
            if self.accepted_tokens[k] == token {
                return Some(k);
            }
            k += 1;
        }
        None
    }

    /// Whether `token` is on the accepted-token allowlist.
    pub fn is_accepted_token(&self, token: u64) -> (r: bool)
        ensures
            r == self.is_accepted_spec(token),
    {
        self.find_accepted(token).is_some()
    }

    /// Puts `token` on the allowlist. Admin-only, gated by pause;
    /// re-adding an accepted token changes nothing.
    pub fn add_accepted_token(&mut self, admin: u64, token: u64, auths: &AuthSet) -> (r: Result<
        (),
        ContractError,
    >)
        requires
            old(self).wf(),
        ensures
            final(self).wf(),
            r == (if !auths.authorized(admin) {
                Err::<(), ContractError>(ContractError::NotAuthorized)
            } else if old(self).paused {
                Err::<(), ContractError>(ContractError::ContractPaused)
            } else if !old(self).initialized {
                Err::<(), ContractError>(ContractError::NotInitialized)
            } else if admin != old(self).admin_id() {
                Err::<(), ContractError>(ContractError::NotAuthorized)
            } else {
                Ok::<(), ContractError>(())
            }),
            r is Err ==> *final(self) == *old(self),
            r is Ok ==> *final(self) == (Shade {
                accepted_tokens: final(self).accepted_tokens,
                ..*old(self)
            }),
            r is Ok ==> final(self).accepted_tokens@ == (if old(self).is_accepted_spec(token) {
                old(self).accepted_tokens@
            } else {
                old(self).accepted_tokens@.push(token)
            }),
            r is Ok ==> final(self).is_accepted_spec(token),
            r is Ok ==> forall|t2: u64|
                t2 != token ==> #[trigger] final(self).is_accepted_spec(t2) == old(
                    self,
                ).is_accepted_spec(t2),
    {
        if !auths.contains(admin) {
            return Err(ContractError::NotAuthorized);
        }
        if self.paused {
            return Err(ContractError::ContractPaused);
        }
        if !self.initialized {
            return Err(ContractError::NotInitialized);
        }
        if admin != self.info.admin {
            return Err(ContractError::NotAuthorized);
        }
        if self.find_accepted(token).is_none() {
            let ghost s0 = self.accepted_tokens@;
            self.accepted_tokens.push(token);
            proof {
                lemma_push_contains(s0, token);
                assert forall|i: int, j: int|
                    0 <= i < j < self.accepted_tokens@.len() implies self.accepted_tokens@[i]
                    != self.accepted_tokens@[j] by {
                    if j == s0.len() {
                        assert(self.accepted_tokens@[i] == s0[i]);
                        assert(s0.contains(s0[i]));
                    }
                }
            }
        }
        Ok(())
    }

    /// Takes `token` off the allowlist. Admin-only, gated by pause;
    /// removing a token that is not listed changes nothing.
    pub fn remove_accepted_token(&mut self, admin: u64, token: u64, auths: &AuthSet) -> (r: Result<
        (),
        ContractError,
    >)
        requires
            old(self).wf(),
        ensures
            final(self).wf(),
            r == (if !auths.authorized(admin) {
                Err::<(), ContractError>(ContractError::NotAuthorized)
            } else if old(self).paused {
                Err::<(), ContractError>(ContractError::ContractPaused)
            } else if !old(self).initialized {
                Err::<(), ContractError>(ContractError::NotInitialized)
            } else if admin != old(self).admin_id() {
                Err::<(), ContractError>(ContractError::NotAuthorized)
            } else {
                Ok::<(), ContractError>(())
            }),
            r is Err ==> *final(self) == *old(self),
            r is Ok ==> *final(self) == (Shade {
                accepted_tokens: final(self).accepted_tokens,
                ..*old(self)
            }),
            r is Ok ==> !final(self).is_accepted_spec(token),
            r is Ok ==> forall|t2: u64|
                t2 != token ==> #[trigger] final(self).is_accepted_spec(t2) == old(
                    self,
                ).is_accepted_spec(t2),
    {
        if !auths.contains(admin) {
            return Err(ContractError::NotAuthorized);
        }
        if self.paused {
            return Err(ContractError::ContractPaused);
        }
        if !self.initialized {
            return Err(ContractError::NotInitialized);
        }
        if admin != self.info.admin {
            return Err(ContractError::NotAuthorized);
        }
        match self.find_accepted(token) {
            Some(k) => {
                let ghost s0 = self.accepted_tokens@;
                self.accepted_tokens.remove(k);
                proof {
                    lemma_remove_contains(s0, k as int);
                }
            },
            None => {},
        }
        Ok(())
    }

    /// Stores the fee rate for `token`, in basis points. Admin-only; a
    /// rate above 10000 (one hundred percent) is rejected as
    /// `InvalidAmount`.
    pub fn set_fee(&mut self, admin: u64, token: u64, bps: u32, auths: &AuthSet) -> (r: Result<
        (),
        ContractError,
    >)
        requires
            old(self).wf(),
        ensures
            final(self).wf(),
            r == (if !auths.authorized(admin) {
                Err::<(), ContractError>(ContractError::NotAuthorized)
            } else if !old(self).initialized {
                Err::<(), ContractError>(ContractError::NotInitialized)
            } else if admin != old(self).admin_id() {
                Err::<(), ContractError>(ContractError::NotAuthorized)
            } else if bps > 10000 {
                Err::<(), ContractError>(ContractError::InvalidAmount)
            } else {
                Ok::<(), ContractError>(())
            }),
            r is Err ==> *final(self) == *old(self),
            r is Ok ==> *final(self) == (Shade { fees: final(self).fees, ..*old(self) }),
            r is Ok ==> final(self).fee_bps_of(token) == bps,
            r is Ok ==> forall|t2: u64|
                t2 != token ==> #[trigger] final(self).fee_bps_of(t2) == old(self).fee_bps_of(t2),
    {
        if !auths.contains(admin) {
            return Err(ContractError::NotAuthorized);
        }
        if !self.initialized {
            return Err(ContractError::NotInitialized);
        }
        if admin != self.info.admin {
            return Err(ContractError::NotAuthorized);
        }
        if bps > 10000 {
            return Err(ContractError::InvalidAmount);
        }
        let ghost s0 = self.fees@;
        self.fees.insert(0, FeeEntry { token, bps });
        proof {
            assert(self.fees@.subrange(1, self.fees@.len() as int) =~= s0);
            assert forall|i: int| 0 <= i < self.fees@.len() implies #[trigger] self.fees@[i].bps
                <= 10000 by {
                if i > 0 {
                    assert(self.fees@[i] == s0[i - 1]);
                }
            }
        }
        Ok(())
    }

    /// The stored fee rate for `token`, in basis points; zero while none
    /// was ever set.
    pub fn get_fee(&self, token: u64) -> (r: u32)
        requires
            self.wf(),
        ensures
            r == self.fee_bps_of(token),
            r <= 10000,
    {
        let ghost s = self.fees@;
        proof {
            assert(s.skip(0) =~= s);
            lemma_fee_lookup_bound(s, token);
        }
        let mut k: usize = 0;
        while k < self.fees.len()
            invariant
                self.wf(),
                s == self.fees@,
                0 <= k <= s.len(),
                fee_lookup(s, token) == fee_lookup(s.skip(k as int), token),
            decreases s.len() - k,
        {
            let e = self.fees[k];
            proof {
                assert(s.skip(k as int)[0] == s[k as int]);
                assert(s.skip(k as int).subrange(1, s.skip(k as int).len() as int) =~= s.skip(
                    k as int + 1,
                ));
            }
            if e.token == token {
                proof {
                    assert(self.fees@[k as int].bps <= 10000);
                }
                return e.bps;
            }
            k += 1;
        }
        proof {
            assert(s.skip(s.len() as int) =~= Seq::<FeeEntry>::empty());
        }
        0
    }
}

/// A stored fee table whose entries are all within bounds only ever looks
/// up an in-bounds rate.
pub(crate) proof fn lemma_fee_lookup_bound(s: Seq<FeeEntry>, token: u64)
    requires
        forall|i: int| 0 <= i < s.len() ==> #[trigger] s[i].bps <= 10000,
    ensures
        fee_lookup(s, token) <= 10000,
    decreases s.len(),
{
    if s.len() > 0 && s[0].token != token {
        lemma_fee_lookup_bound(s.subrange(1, s.len() as int), token);
    }
}

} // verus!
