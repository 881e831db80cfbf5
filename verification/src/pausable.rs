//! The global circuit breaker: a pause switch gating the engine's
//! state-mutating entry points.

use crate::auth::AuthSet;
use crate::errors::ContractError;
use crate::events::{ContractPausedEvent, ContractUnpausedEvent, ShadeEvent};
use crate::shade::Shade;
use vstd::prelude::*;

verus! {

impl Shade {
    /// Whether the engine is paused.
    pub fn is_paused(&self) -> (r: bool)
        ensures
            r == self.paused,
    {
        self.paused
    }

    /// Passes only while the engine is paused.
    pub fn assert_paused(&self) -> (r: Result<(), ContractError>)
        ensures
            r == (if self.paused {
                Ok::<(), ContractError>(())
            } else {
                Err::<(), ContractError>(ContractError::ContractNotPaused)
            }),
    {
        if self.paused {
            Ok(())
        } else {
            Err(ContractError::ContractNotPaused)
        }
    }

    /// Passes only while the engine is not paused.
    pub fn assert_not_paused(&self) -> (r: Result<(), ContractError>)
        ensures
            r == (if self.paused {
                Err::<(), ContractError>(ContractError::ContractPaused)
            } else {
                Ok::<(), ContractError>(())
            }),
    {
        if self.paused {
            Err(ContractError::ContractPaused)
        } else {
            Ok(())
        }
    }

    /// Pauses the engine. Admin-only; pausing an already paused engine is
    /// rejected with `ContractPaused`, not silently accepted.
    pub fn pause(&mut self, admin: u64, auths: &AuthSet, now: u64) -> (r: Result<
        (),
        ContractError,
    >)
        requires
            old(self).wf(),
        ensures
            final(self).wf(),
            r == (if !auths.authorized(admin) {
                Err::<(), ContractError>(ContractError::NotAuthorized)
            } else if !old(self).initialized {
                Err::<(), ContractError>(ContractError::NotInitialized)
            } else if admin != old(self).admin_id() {
                Err::<(), ContractError>(ContractError::NotAuthorized)
            } else if old(self).paused {
                Err::<(), ContractError>(ContractError::ContractPaused)
            } else {
                Ok::<(), ContractError>(())
            }),
            r is Err ==> *final(self) == *old(self),
            r is Ok ==> *final(self) == (Shade {
                paused: true,
                events: final(self).events,
                ..*old(self)
            }),
            r is Ok ==> final(self).events@ == old(self).events@.push(
                ShadeEvent::ContractPaused(ContractPausedEvent { admin, timestamp: now }),
            ),
    {
        if !auths.contains(admin) {
            return Err(ContractError::NotAuthorized);
        }
        if !self.initialized {
            return Err(ContractError::NotInitialized);
        }
        if admin != self.info.admin {
            return Err(ContractError::NotAuthorized);
        }
        if self.paused {
            return Err(ContractError::ContractPaused);
        }
        self.paused = true;
        self.events.push(ShadeEvent::ContractPaused(ContractPausedEvent { admin, timestamp: now }));
        Ok(())
    }

    /// Unpauses the engine. Admin-only; unpausing an engine that is not
    /// paused is rejected with `ContractNotPaused`.
    pub fn unpause(&mut self, admin: u64, auths: &AuthSet, now: u64) -> (r: Result<
        (),
        ContractError,
    >)
        requires
            old(self).wf(),
        ensures
            final(self).wf(),
            r == (if !auths.authorized(admin) {
                Err::<(), ContractError>(ContractError::NotAuthorized)
            } else if !old(self).initialized {
                Err::<(), ContractError>(ContractError::NotInitialized)
            } else if admin != old(self).admin_id() {
                Err::<(), ContractError>(ContractError::NotAuthorized)
            } else if !old(self).paused {
                Err::<(), ContractError>(ContractError::ContractNotPaused)
            } else {
                Ok::<(), ContractError>(())
            }),
            r is Err ==> *final(self) == *old(self),
            r is Ok ==> *final(self) == (Shade {
                paused: false,
                events: final(self).events,
                ..*old(self)
            }),
            r is Ok ==> final(self).events@ == old(self).events@.push(
                ShadeEvent::ContractUnpaused(ContractUnpausedEvent { admin, timestamp: now }),
            ),
    {
        if !auths.contains(admin) {
            return Err(ContractError::NotAuthorized);
        }
        if !self.initialized {
            return Err(ContractError::NotInitialized);
        }
        if admin != self.info.admin {
            return Err(ContractError::NotAuthorized);
        }
        if !self.paused {
            return Err(ContractError::ContractNotPaused);
        }
        self.paused = false;
        self.events.push(ShadeEvent::ContractUnpaused(ContractUnpausedEvent {
            admin,
            timestamp: now,
        }));
        Ok(())
    }
}

} // verus!
