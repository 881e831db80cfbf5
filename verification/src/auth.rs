//! The caller-authentication facts of one invocation.
//!
//! The hosting environment verifies which identities authorized the current
//! call; the engine only ever asks whether a given identity is among them.
//! An `AuthSet` carries exactly that: the set of authorized identities,
//! fixed for the duration of the call.

use vstd::prelude::*;

verus! {

/// The identities that authorized the current call.
pub struct AuthSet {
    ids: Vec<u64>,
}

impl AuthSet {
    /// The set of authorized identities.
    pub closed spec fn authorized(self, id: u64) -> bool {
        self.ids@.contains(id)
    }

    /// An authorization context for the given identities.
    pub fn new(ids: Vec<u64>) -> (r: AuthSet)
        ensures
            forall|id: u64| r.authorized(id) == ids@.contains(id),
    {
        AuthSet { ids }
    }

    /// Whether `id` authorized the current call.
    pub fn contains(&self, id: u64) -> (r: bool)
        ensures
            r == self.authorized(id),
    {
        let mut k: usize = 0;
        while k < self.ids.len()
            invariant
                0 <= k <= self.ids@.len(),
                forall|j: int| 0 <= j < k ==> self.ids@[j] != id,
            decreases self.ids@.len() - k,
        {
            if self.ids[k] == id {
                return true;
            }
            k += 1;
        }
        false
    }
}

} // verus!
