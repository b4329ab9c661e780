use vstd::prelude::*;

use crate::types::{ActionType, Pubkey, SESSION_EXPIRY_SLOTS};

verus! {

/// Expiry slot of a session created at `slot`, saturating at the largest slot.
pub open spec fn expiry_of(slot: u64) -> u64 {
    if slot + SESSION_EXPIRY_SLOTS > u64::MAX {
        u64::MAX
    } else {
        (slot + SESSION_EXPIRY_SLOTS) as u64
    }
}

/// A single-use, slot-bounded capability binding one agent to one approved action.
#[derive(Clone, Copy, Debug, PartialEq)]
pub struct SessionAuthority {
    /// The vault the session was granted under.
    pub vault: Pubkey,
    /// The agent the session was granted to.
    pub agent: Pubkey,
    /// Set once admission succeeds.
    pub authorized: bool,
    /// The approved amount; settlement uses it, never a caller's value.
    pub authorized_amount: u64,
    /// The approved token mint.
    pub authorized_token: Pubkey,
    /// The approved target program.
    pub authorized_protocol: Pubkey,
    /// The approved kind of action.
    pub action_type: ActionType,
    /// Last slot at which the session is still live.
    pub expires_at_slot: u64,
}

impl SessionAuthority {
    pub open spec fn expired_at(&self, current_slot: u64) -> bool {
        current_slot > self.expires_at_slot
    }

    pub fn is_expired(&self, current_slot: u64) -> (r: bool)
        ensures
            r == self.expired_at(current_slot),
    {
        current_slot > self.expires_at_slot
    }

    pub fn is_valid(&self, current_slot: u64) -> (r: bool)
        ensures
            r == (self.authorized && !self.expired_at(current_slot)),
    {
        self.authorized && !self.is_expired(current_slot)
    }

    /// The expiry slot for a session created at `current_slot`.
    pub fn calculate_expiry(current_slot: u64) -> (r: u64)
        ensures
            r == expiry_of(current_slot),
    {
        current_slot.saturating_add(SESSION_EXPIRY_SLOTS)
    }
}

} // verus!
