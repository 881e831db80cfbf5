//! Role-based access control: explicit grants plus admin supremacy.

use crate::auth::AuthSet;
use crate::errors::ContractError;
use crate::events::{RoleGrantedEvent, RoleRevokedEvent, ShadeEvent};
use crate::shade::{lemma_push_contains, lemma_remove_contains, Shade};
use crate::types::{Role, RoleGrant};
use vstd::prelude::*;

verus! {

impl Shade {
    /// Whether `user` holds `role`: always true for the configured admin,
    /// else exactly when an explicit grant is stored.
    pub fn has_role(&self, user: u64, role: Role) -> (r: bool)
        ensures
            r == self.has_role_spec(user, role),
    {
        if self.initialized && user == self.info.admin {
            return true;
        }
        self.find_grant(user, role).is_some()
    }

    /// The index of the stored grant `(user, role)`, if any.
    fn find_grant(&self, user: u64, role: Role) -> (r: Option<usize>)
        ensures
            match r {
                Some(k) => k < self.roles@.len() && self.roles@[k as int] == (RoleGrant {
                    user,
                    role,
                }),
                None => !self.granted(user, role),
            },
    {
        let g = RoleGrant { user, role };
        let mut k: usize = 0;
        while k < self.roles.len()
            invariant
                0 <= k <= self.roles@.len(),
                g == (RoleGrant { user, role }),
                forall|i: int| 0 <= i < k ==> self.roles@[i] != g,
            decreases self.roles@.len() - k,
        {
            if self.roles[k] == g {
                return Some(k);
            }
            k += 1;
        }
        None
    }

    /// Grants `role` to `user`. Only the stored admin may grant; granting
    /// an already-granted role changes no grant but still emits the normal
    /// event.
    pub fn grant_role(&mut self, caller: u64, user: u64, role: Role, auths: &AuthSet, now: u64)
        -> (r: Result<(), ContractError>)
        requires
            old(self).wf(),
        ensures
            final(self).wf(),
            r == (if !auths.authorized(caller) {
                Err::<(), ContractError>(ContractError::NotAuthorized)
            } else if !old(self).initialized {
                Err::<(), ContractError>(ContractError::NotInitialized)
            } else if caller != old(self).admin_id() {
                Err::<(), ContractError>(ContractError::NotAuthorized)
            } else {
                Ok::<(), ContractError>(())
            }),
            r is Err ==> *final(self) == *old(self),
            r is Ok ==> *final(self) == (Shade {
                roles: final(self).roles,
                events: final(self).events,
                ..*old(self)
            }),
            r is Ok ==> final(self).granted(user, role),
            r is Ok ==> forall|u2: u64, r2: Role|
                !(u2 == user && r2 == role) ==> #[trigger] final(self).granted(u2, r2) == old(
                    self,
                ).granted(u2, r2),
            r is Ok ==> final(self).events@ == old(self).events@.push(
                ShadeEvent::RoleGranted(RoleGrantedEvent { user, role, timestamp: now }),
            ),
    {
        if !auths.contains(caller) {
            return Err(ContractError::NotAuthorized);
        }
        if !self.initialized {
            return Err(ContractError::NotInitialized);
        }
        if caller != self.info.admin {
            return Err(ContractError::NotAuthorized);
        }
        let g = RoleGrant { user, role };
        if self.find_grant(user, role).is_none() {
            let ghost s0 = self.roles@;
            self.roles.push(g);
            proof {
                lemma_push_contains(s0, g);
                assert forall|i: int, j: int|
                    0 <= i < j < self.roles@.len() implies self.roles@[i] != self.roles@[j] by {
                    if j < s0.len() {
                    } else {
                        assert(self.roles@[j] == g);
                        assert(self.roles@[i] == s0[i]);
                        assert(s0.contains(s0[i]));
                    }
                }
            }
        }
        self.events.push(ShadeEvent::RoleGranted(RoleGrantedEvent { user, role, timestamp: now }));
        proof {
            assert forall|u2: u64, r2: Role|
                !(u2 == user && r2 == role) implies #[trigger] self.granted(u2, r2) == old(
                self,
            ).granted(u2, r2) by {
                assert((RoleGrant { user: u2, role: r2 }) != g);
            }
        }
        Ok(())
    }

    /// Revokes `role` from `user`. Only the stored admin may revoke;
    /// revoking a grant that does not exist changes no grant but still
    /// emits the normal event.
    pub fn revoke_role(&mut self, caller: u64, user: u64, role: Role, auths: &AuthSet, now: u64)
        -> (r: Result<(), ContractError>)
        requires
            old(self).wf(),
        ensures
            final(self).wf(),
            r == (if !auths.authorized(caller) {
                Err::<(), ContractError>(ContractError::NotAuthorized)
            } else if !old(self).initialized {
                Err::<(), ContractError>(ContractError::NotInitialized)
            } else if caller != old(self).admin_id() {
                Err::<(), ContractError>(ContractError::NotAuthorized)
            } else {
                Ok::<(), ContractError>(())
            }),
            r is Err ==> *final(self) == *old(self),
            r is Ok ==> *final(self) == (Shade {
                roles: final(self).roles,
                events: final(self).events,
                ..*old(self)
            }),
            r is Ok ==> !final(self).granted(user, role),
            r is Ok ==> forall|u2: u64, r2: Role|
                !(u2 == user && r2 == role) ==> #[trigger] final(self).granted(u2, r2) == old(
                    self,
                ).granted(u2, r2),
            r is Ok ==> final(self).events@ == old(self).events@.push(
                ShadeEvent::RoleRevoked(RoleRevokedEvent { user, role, timestamp: now }),
            ),
    {
        if !auths.contains(caller) {
            return Err(ContractError::NotAuthorized);
        }
        if !self.initialized {
            return Err(ContractError::NotInitialized);
        }
        if caller != self.info.admin {
            return Err(ContractError::NotAuthorized);
        }
        let g = RoleGrant { user, role };
        match self.find_grant(user, role) {
            Some(k) => {
                let ghost s0 = self.roles@;
                self.roles.remove(k);
                proof {
                    lemma_remove_contains(s0, k as int);
                }
            },
            None => {},
        }
        self.events.push(ShadeEvent::RoleRevoked(RoleRevokedEvent { user, role, timestamp: now }));
        proof {
            assert forall|u2: u64, r2: Role|
                !(u2 == user && r2 == role) implies #[trigger] self.granted(u2, r2) == old(
                self,
            ).granted(u2, r2) by {
                assert((RoleGrant { user: u2, role: r2 }) != g);
            }
        }
        Ok(())
    }
}

} // verus!
