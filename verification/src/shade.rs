//! The invoice engine: registry, invoices, fees, roles and the pause
//! switch, held as one explicit state record.
//!
//! Every entry point takes the authentication facts of the call and the
//! current ledger time as arguments, validates, and either commits all of
//! its updates or returns the error of the first violated rule with the
//! state unchanged.

use crate::events::{InitializedEvent, ShadeEvent};
use crate::errors::ContractError;
use crate::types::{
    ContractInfo, FeeEntry, Invoice, InvoiceStatus, Merchant, MerchantAccountEntry, RoleGrant,
};
use vstd::prelude::*;

verus! {

/// The largest invoice amount the engine accepts: any amount up to this
/// bound can be split against a fee rate of up to 10000 basis points
/// without leaving the representable range.
pub const MAX_INVOICE_AMOUNT: i128 = 17_014_118_346_046_923_173_168_730_371_588_410;

/// The fee rate stored for `token`: the rate of the newest entry, or zero
/// basis points while no rate was ever set.
pub open spec fn fee_lookup(s: Seq<FeeEntry>, token: u64) -> u32
    decreases s.len(),
{
    if s.len() == 0 {
        0u32
    } else if s[0].token == token {
        s[0].bps
    } else {
        fee_lookup(s.subrange(1, s.len() as int), token)
    }
}

/// The escrow-account address stored for `merchant`: the newest entry, or
/// none while no account was ever set.
pub open spec fn account_lookup(s: Seq<MerchantAccountEntry>, merchant: u64) -> Option<u64>
    decreases s.len(),
{
    if s.len() == 0 {
        None
    } else if s[0].merchant == merchant {
        Some(s[0].account)
    } else {
        account_lookup(s.subrange(1, s.len() as int), merchant)
    }
}

/// The invoice engine.
pub struct Shade {
    /// The engine's own identity: the recipient of protocol fees.
    pub address: u64,
    pub initialized: bool,
    /// The configuration record; meaningful once `initialized`.
    pub info: ContractInfo,
    pub paused: bool,
    pub accepted_tokens: Vec<u64>,
    pub fees: Vec<FeeEntry>,
    pub roles: Vec<RoleGrant>,
    pub merchants: Vec<Merchant>,
    pub merchant_accounts: Vec<MerchantAccountEntry>,
    pub invoices: Vec<Invoice>,
    pub events: Vec<ShadeEvent>,
}

/// The fields of `post` other than the event log are those of `pre`.
pub open spec fn same_except_events(pre: Shade, post: Shade) -> bool {
    post == (Shade { events: post.events, ..pre })
}

/// The lifecycle invariant of the invoice stored at index `i` of an engine
/// with `n_merchants` registered merchants.
pub open spec fn invoice_valid(inv: Invoice, i: int, n_merchants: int) -> bool {
    &&& inv.id == i + 1
    &&& 0 < inv.amount <= MAX_INVOICE_AMOUNT
    &&& 0 <= inv.amount_refunded <= inv.amount
    &&& (inv.status == InvoiceStatus::Refunded <==> inv.amount_refunded == inv.amount)
    &&& ((inv.status == InvoiceStatus::Pending || inv.status == InvoiceStatus::Cancelled
        || inv.status == InvoiceStatus::Paid) ==> inv.amount_refunded == 0)
    &&& (inv.status == InvoiceStatus::PartiallyRefunded ==> 0 < inv.amount_refunded)
    &&& ((inv.status == InvoiceStatus::Paid || inv.status == InvoiceStatus::PartiallyRefunded
        || inv.status == InvoiceStatus::Refunded) ==> inv.payer is Some && inv.date_paid is Some)
    &&& ((inv.status == InvoiceStatus::Pending || inv.status == InvoiceStatus::Cancelled)
        ==> inv.payer is None && inv.date_paid is None)
    &&& 1 <= inv.merchant_id <= n_merchants
}

impl Shade {
    /// The configured admin identity.
    pub open spec fn admin_id(self) -> u64 {
        self.info.admin
    }

    /// Whether `address` is a registered merchant.
    pub open spec fn registered(self, address: u64) -> bool {
        exists|i: int|
            0 <= i < self.merchants@.len() && #[trigger] self.merchants@[i].address == address
    }

    /// Whether `token` is on the accepted-token allowlist.
    pub open spec fn is_accepted_spec(self, token: u64) -> bool {
        self.accepted_tokens@.contains(token)
    }

    /// The fee rate for `token`, in basis points.
    pub open spec fn fee_bps_of(self, token: u64) -> u32 {
        fee_lookup(self.fees@, token)
    }

    /// The escrow-account address registered for `merchant`.
    pub open spec fn account_of(self, merchant: u64) -> Option<u64> {
        account_lookup(self.merchant_accounts@, merchant)
    }

    /// Whether `user` holds `role` by an explicit grant.
    pub open spec fn granted(self, user: u64, role: crate::types::Role) -> bool {
        self.roles@.contains(RoleGrant { user, role })
    }

    /// Whether `user` holds `role`: the configured admin holds every role
    /// implicitly; everyone else needs an explicit grant.
    pub open spec fn has_role_spec(self, user: u64, role: crate::types::Role) -> bool {
        (self.initialized && user == self.admin_id()) || self.granted(user, role)
    }

    /// The merchant records carry their own one-based index as id, and no
    /// address registers twice.
    pub open spec fn merchants_ok(self) -> bool {
        &&& forall|i: int|
            0 <= i < self.merchants@.len() ==> #[trigger] self.merchants@[i].id == i + 1
        &&& forall|i: int, j: int|
            0 <= i < j < self.merchants@.len() ==> #[trigger] self.merchants@[i].address
                != #[trigger] self.merchants@[j].address
    }

    /// The engine's invariant.
    pub open spec fn wf(self) -> bool {
        &&& self.merchants_ok()
        &&& forall|i: int|
            0 <= i < self.invoices@.len() ==> #[trigger] invoice_valid(
                self.invoices@[i],
                i,
                self.merchants@.len() as int,
            )
        &&& forall|i: int|
            0 <= i < self.fees@.len() ==> #[trigger] self.fees@[i].bps <= 10000
        &&& forall|i: int, j: int|
            0 <= i < j < self.accepted_tokens@.len() ==> #[trigger] self.accepted_tokens@[i]
                != #[trigger] self.accepted_tokens@[j]
        &&& forall|i: int, j: int|
            0 <= i < j < self.roles@.len() ==> #[trigger] self.roles@[i]
                != #[trigger] self.roles@[j]
    }

    /// A fresh, uninitialized engine deployed at `address`.
    pub fn new(address: u64) -> (r: Shade)
        ensures
            r.wf(),
            r.address == address,
            !r.initialized,
            !r.paused,
            r.accepted_tokens@ == Seq::<u64>::empty(),
            r.fees@ == Seq::<FeeEntry>::empty(),
            r.roles@ == Seq::<RoleGrant>::empty(),
            r.merchants@ == Seq::<Merchant>::empty(),
            r.merchant_accounts@ == Seq::<MerchantAccountEntry>::empty(),
            r.invoices@ == Seq::<Invoice>::empty(),
            r.events@ == Seq::<ShadeEvent>::empty(),
    {
        Shade {
            address,
            initialized: false,
            info: ContractInfo { admin: 0, timestamp: 0 },
            paused: false,
            accepted_tokens: Vec::new(),
            fees: Vec::new(),
            roles: Vec::new(),
            merchants: Vec::new(),
            merchant_accounts: Vec::new(),
            invoices: Vec::new(),
            events: Vec::new(),
        }
    }

    /// Stores the admin identity and the configuration record. Write-once:
    /// a second call fails with `AlreadyInitialized` and changes nothing.
    pub fn initialize(&mut self, admin: u64, now: u64) -> (r: Result<(), ContractError>)
        requires
            old(self).wf(),
        ensures
            final(self).wf(),
            r == (if old(self).initialized {
                Err::<(), ContractError>(ContractError::AlreadyInitialized)
            } else {
                Ok::<(), ContractError>(())
            }),
            r is Err ==> *final(self) == *old(self),
            r is Ok ==> *final(self) == (Shade {
                initialized: true,
                info: (ContractInfo { admin, timestamp: now }),
                events: final(self).events,
                ..*old(self)
            }),
            r is Ok ==> final(self).events@ == old(self).events@.push(
                ShadeEvent::Initialized(InitializedEvent { admin, timestamp: now }),
            ),
    {
        if self.initialized {
            return Err(ContractError::AlreadyInitialized);
        }
        self.initialized = true;
        self.info = ContractInfo { admin, timestamp: now };
        self.events.push(ShadeEvent::Initialized(InitializedEvent { admin, timestamp: now }));
        Ok(())
    }

    /// The stored admin identity.
    pub fn get_admin(&self) -> (r: Result<u64, ContractError>)
        ensures
            r == (if self.initialized {
                Ok::<u64, ContractError>(self.admin_id())
            } else {
                Err::<u64, ContractError>(ContractError::NotInitialized)
            }),
    {
        if self.initialized {
            Ok(self.info.admin)
        } else {
            Err(ContractError::NotInitialized)
        }
    }

    /// The index of the merchant registered under `address`, if any.
    pub(crate) fn find_merchant(&self, address: u64) -> (r: Option<usize>)
        ensures
            match r {
                Some(k) => k < self.merchants@.len() && self.merchants@[k as int].address
                    == address,
                None => !self.registered(address),
            },
    {
        let mut k: usize = 0;
        while k < self.merchants.len()
            invariant
                0 <= k <= self.merchants@.len(),
                forall|i: int| 0 <= i < k ==> #[trigger] self.merchants@[i].address != address,
            decreases self.merchants@.len() - k,
        {
            if self.merchants[k].address == address {
                return Some(k);
            }
            k += 1;
        }
        None
    }
}

// ---------------------------------------------------------------------------
// Sequence lemmas shared by the engine's modules

/// Appending an element keeps every other element's membership.
pub(crate) proof fn lemma_push_contains<T>(s: Seq<T>, e: T)
    ensures
        s.push(e).contains(e),
        forall|x: T| #[trigger] s.push(e).contains(x) == (s.contains(x) || x == e),
{
    assert(s.push(e)[s.len() as int] == e);
    assert forall|x: T| #[trigger] s.push(e).contains(x) == (s.contains(x) || x == e) by {
        if s.contains(x) {
            let i = choose|i: int| 0 <= i < s.len() && s[i] == x;
            assert(s.push(e)[i] == x);
        }
        if s.push(e).contains(x) && x != e {
            let i = choose|i: int| 0 <= i < s.push(e).len() && s.push(e)[i] == x;
            assert(s[i] == x);
        }
    }
}

/// Removing the only occurrence of an element removes exactly it: every
/// other element's membership is kept, and distinctness is kept.
pub(crate) proof fn lemma_remove_contains<T>(s: Seq<T>, k: int)
    requires
        0 <= k < s.len(),
        forall|i: int, j: int| 0 <= i < j < s.len() ==> s[i] != s[j],
    ensures
        !s.remove(k).contains(s[k]),
        forall|x: T| x != s[k] ==> #[trigger] s.remove(k).contains(x) == s.contains(x),
        forall|i: int, j: int| 0 <= i < j < s.remove(k).len() ==> s.remove(k)[i] != s.remove(k)[j],
    decreases s.len(),
{
    let t = s.remove(k);
    assert forall|i: int| 0 <= i < t.len() implies t[i] == (if i < k {
        s[i]
    } else {
        s[i + 1]
    }) by {
        s.remove_ensures(k);
    }
    assert(!t.contains(s[k])) by {
        if t.contains(s[k]) {
            let i = choose|i: int| 0 <= i < t.len() && t[i] == s[k];
        }
    }
    assert forall|x: T| x != s[k] implies #[trigger] t.contains(x) == s.contains(x) by {
        if s.contains(x) {
            let i = choose|i: int| 0 <= i < s.len() && s[i] == x;
            if i < k {
                assert(t[i] == x);
            } else {
                assert(i != k);
                assert(t[i - 1] == x);
            }
        }
        if t.contains(x) {
            let i = choose|i: int| 0 <= i < t.len() && t[i] == x;
            if i < k {
                assert(s[i] == x);
            } else {
                assert(s[i + 1] == x);
            }
        }
    }
}

} // verus!
