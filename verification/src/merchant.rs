//! The merchant registry: self-registration, admin verification and read
//! paths, plus the binding of a merchant to its escrow account.

use crate::auth::AuthSet;
use crate::errors::ContractError;
use crate::events::{MerchantVerifiedEvent, ShadeEvent};
use crate::shade::{account_lookup, Shade};
use crate::types::{Merchant, MerchantAccountEntry, MerchantFilter};
use vstd::prelude::*;

verus! {

/// Whether a merchant record passes the filter; an absent field matches
/// everything.
pub open spec fn merchant_matches(m: Merchant, f: MerchantFilter) -> bool {
    &&& (match f.is_active {
        Option::None => true,
        Option::Some(a) => m.active == a,
    })
    &&& (match f.is_verified {
        Option::None => true,
        Option::Some(v) => m.verified == v,
    })
}

/// The subsequence of `s` passing the filter, in registration order.
pub open spec fn filtered_merchants(s: Seq<Merchant>, f: MerchantFilter) -> Seq<Merchant> {
    s.filter(|m: Merchant| merchant_matches(m, f))
}

impl Shade {
    /// Registers the caller as a merchant: assigns the next sequential id
    /// and stores the record active and unverified. Fails
    /// `MerchantAlreadyRegistered` for an address that is already present.
    pub fn register_merchant(&mut self, merchant: u64, auths: &AuthSet, now: u64) -> (r: Result<
        (),
        ContractError,
    >)
        requires
            old(self).wf(),
            old(self).merchants@.len() < u64::MAX,
        ensures
            final(self).wf(),
            r == (if !auths.authorized(merchant) {
                Err::<(), ContractError>(ContractError::NotAuthorized)
            } else if old(self).paused {
                Err::<(), ContractError>(ContractError::ContractPaused)
            } else if old(self).registered(merchant) {
                Err::<(), ContractError>(ContractError::MerchantAlreadyRegistered)
            } else {
                Ok::<(), ContractError>(())
            }),
            r is Err ==> *final(self) == *old(self),
            r is Ok ==> *final(self) == (Shade {
                merchants: final(self).merchants,
                ..*old(self)
            }),
            r is Ok ==> final(self).merchants@ == old(self).merchants@.push(
                (Merchant {
                    id: (old(self).merchants@.len() + 1) as u64,
                    address: merchant,
                    active: true,
                    verified: false,
                    date_registered: now,
                }),
            ),
    {
        if !auths.contains(merchant) {
            return Err(ContractError::NotAuthorized);
        }
        if self.paused {
            return Err(ContractError::ContractPaused);
        }
        if self.find_merchant(merchant).is_some() {
            return Err(ContractError::MerchantAlreadyRegistered);
        }
        let id = self.merchants.len() as u64 + 1;
        self.merchants.push(Merchant {
            id,
            address: merchant,
            active: true,
            verified: false,
            date_registered: now,
        });
        proof {
            assert forall|i: int|
                0 <= i < self.invoices@.len() implies #[trigger] crate::shade::invoice_valid(
                self.invoices@[i],
                i,
                self.merchants@.len() as int,
            ) by {
                assert(crate::shade::invoice_valid(
                    old(self).invoices@[i],
                    i,
                    old(self).merchants@.len() as int,
                ));
            }
        }
        Ok(())
    }

    /// The merchant record with the given id.
    pub fn get_merchant(&self, merchant_id: u64) -> (r: Result<Merchant, ContractError>)
        ensures
            r == (if 1 <= merchant_id <= self.merchants@.len() {
                Ok::<Merchant, ContractError>(self.merchants@[merchant_id - 1])
            } else {
                Err::<Merchant, ContractError>(ContractError::MerchantNotFound)
            }),
    {
        if merchant_id == 0 || merchant_id > self.merchants.len() as u64 {
            return Err(ContractError::MerchantNotFound);
        }
        Ok(self.merchants[(merchant_id - 1) as usize])
    }

    /// Whether `address` is a registered merchant.
    pub fn is_merchant(&self, address: u64) -> (r: bool)
        ensures
            r == self.registered(address),
    {
        self.find_merchant(address).is_some()
    }

    /// Sets the verification flag of a merchant. Admin-only.
    pub fn verify_merchant(
        &mut self,
        admin: u64,
        merchant_id: u64,
        status: bool,
        auths: &AuthSet,
        now: u64,
    ) -> (r: Result<(), ContractError>)
        requires
            old(self).wf(),
        ensures
            final(self).wf(),
            r == (if !auths.authorized(admin) {
                Err::<(), ContractError>(ContractError::NotAuthorized)
            } else if !old(self).initialized {
                Err::<(), ContractError>(ContractError::NotInitialized)
            } else if admin != old(self).admin_id() {
                Err::<(), ContractError>(ContractError::NotAuthorized)
            } else if !(1 <= merchant_id <= old(self).merchants@.len()) {
                Err::<(), ContractError>(ContractError::MerchantNotFound)
            } else {
                Ok::<(), ContractError>(())
            }),
            r is Err ==> *final(self) == *old(self),
            r is Ok ==> *final(self) == (Shade {
                merchants: final(self).merchants,
                events: final(self).events,
                ..*old(self)
            }),
            r is Ok ==> final(self).merchants@ == old(self).merchants@.update(
                merchant_id - 1,
                (Merchant { verified: status, ..old(self).merchants@[merchant_id - 1] }),
            ),
            r is Ok ==> final(self).events@ == old(self).events@.push(
                ShadeEvent::MerchantVerified(
                    MerchantVerifiedEvent { merchant_id, status, timestamp: now },
                ),
            ),
    {
        if !auths.contains(admin) {
            return Err(ContractError::NotAuthorized);
        }
        if !self.initialized {
            return Err(ContractError::NotInitialized);
        }
        if admin != self.info.admin {
            return Err(ContractError::NotAuthorized);
        }
        if merchant_id == 0 || merchant_id > self.merchants.len() as u64 {
            return Err(ContractError::MerchantNotFound);
        }
        let k = (merchant_id - 1) as usize;
        let m = self.merchants[k];
        let slot = vstd::std_specs::vec::vec_index_mut(&mut self.merchants, k);
        *slot = Merchant { verified: status, ..m };
        self.events.push(ShadeEvent::MerchantVerified(MerchantVerifiedEvent {
            merchant_id,
            status,
            timestamp: now,
        }));
        proof {
            assert forall|i: int|
                0 <= i < self.invoices@.len() implies #[trigger] crate::shade::invoice_valid(
                self.invoices@[i],
                i,
                self.merchants@.len() as int,
            ) by {
                assert(crate::shade::invoice_valid(
                    old(self).invoices@[i],
                    i,
                    old(self).merchants@.len() as int,
                ));
            }
        }
        Ok(())
    }

    /// The verification flag of the merchant with the given id.
    pub fn is_merchant_verified(&self, merchant_id: u64) -> (r: Result<bool, ContractError>)
        ensures
            r == (if 1 <= merchant_id <= self.merchants@.len() {
                Ok::<bool, ContractError>(self.merchants@[merchant_id - 1].verified)
            } else {
                Err::<bool, ContractError>(ContractError::MerchantNotFound)
            }),
    {
        if merchant_id == 0 || merchant_id > self.merchants.len() as u64 {
            return Err(ContractError::MerchantNotFound);
        }
        Ok(self.merchants[(merchant_id - 1) as usize].verified)
    }

    /// Every registered merchant passing the filter, in registration order.
    pub fn get_merchants(&self, filter: MerchantFilter) -> (r: Vec<Merchant>)
        ensures
            r@ == filtered_merchants(self.merchants@, filter),
    {
        let ghost s = self.merchants@;
        let mut out: Vec<Merchant> = Vec::new();
        let mut k: usize = 0;
        proof {
            reveal(Seq::filter);
            assert(s.take(0) =~= Seq::<Merchant>::empty());
        }
        while k < self.merchants.len()
            invariant
                s == self.merchants@,
                0 <= k <= s.len(),
                out@ == filtered_merchants(s.take(k as int), filter),
            decreases s.len() - k,
        {
            let m = self.merchants[k];
            proof {
                reveal(Seq::filter);
                assert(s.take(k as int + 1).drop_last() =~= s.take(k as int));
                assert(s.take(k as int + 1).last() == s[k as int]);
            }
            if (match filter.is_active {
                Option::None => true,
                Option::Some(a) => m.active == a,
            }) && (match filter.is_verified {
                Option::None => true,
                Option::Some(v) => m.verified == v,
            }) {
                out.push(m);
            }
            k += 1;
        }
        proof {
            assert(s.take(s.len() as int) =~= s);
        }
        out
    }

    /// The escrow-account address registered for `merchant`, if any.
    pub(crate) fn find_account(&self, merchant: u64) -> (r: Option<u64>)
        ensures
            r == self.account_of(merchant),
    {
        let ghost s = self.merchant_accounts@;
        let mut k: usize = 0;
        proof {
            assert(s.skip(0) =~= s);
        }
        while k < self.merchant_accounts.len()
            invariant
                s == self.merchant_accounts@,
                0 <= k <= s.len(),
                account_lookup(s, merchant) == account_lookup(s.skip(k as int), merchant),
            decreases s.len() - k,
        {
            let e = self.merchant_accounts[k];
            proof {
                assert(s.skip(k as int)[0] == s[k as int]);
                assert(s.skip(k as int).subrange(1, s.skip(k as int).len() as int) =~= s.skip(
                    k as int + 1,
                ));
            }
            if e.merchant == merchant {
                return Some(e.account);
            }
            k += 1;
        }
        proof {
            assert(s.skip(s.len() as int) =~= Seq::<MerchantAccountEntry>::empty());
        }
        None
    }

    /// Binds `merchant` to the escrow account deployed for it at `account`.
    /// The merchant must authorize the call and be registered.
    pub fn set_merchant_account(&mut self, merchant: u64, account: u64, auths: &AuthSet) -> (r:
        Result<(), ContractError>)
        requires
            old(self).wf(),
        ensures
            final(self).wf(),
            r == (if !auths.authorized(merchant) {
                Err::<(), ContractError>(ContractError::NotAuthorized)
            } else if !old(self).registered(merchant) {
                Err::<(), ContractError>(ContractError::MerchantNotFound)
            } else {
                Ok::<(), ContractError>(())
            }),
            r is Err ==> *final(self) == *old(self),
            r is Ok ==> *final(self) == (Shade {
                merchant_accounts: final(self).merchant_accounts,
                ..*old(self)
            }),
            r is Ok ==> final(self).account_of(merchant) == Some(account),
            r is Ok ==> forall|m2: u64|
                m2 != merchant ==> #[trigger] final(self).account_of(m2) == old(self).account_of(
                    m2,
                ),
    {
        if !auths.contains(merchant) {
            return Err(ContractError::NotAuthorized);
        }
        if self.find_merchant(merchant).is_none() {
            return Err(ContractError::MerchantNotFound);
        }
        let ghost s0 = self.merchant_accounts@;
        self.merchant_accounts.insert(0, MerchantAccountEntry { merchant, account });
        proof {
            assert(self.merchant_accounts@.subrange(
                1,
                self.merchant_accounts@.len() as int,
            ) =~= s0);
        }
        Ok(())
    }
}

} // verus!
