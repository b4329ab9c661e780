use vstd::prelude::*;

use crate::types::{Pubkey, VaultStatus};

verus! {

/// A vault's identity, status and lifetime aggregates.
#[derive(Clone, Copy, Debug, PartialEq)]
pub struct AgentVault {
    /// The owner, who has full authority.
    pub owner: Pubkey,
    /// The registered agent; all zero when none is registered.
    pub agent: Pubkey,
    /// Wallet that receives developer fees.
    pub fee_destination: Pubkey,
    /// Distinguishes the vaults of one owner.
    pub vault_id: u64,
    pub status: VaultStatus,
    /// Creation time, in seconds.
    pub created_at: i64,
    /// Number of successfully settled actions.
    pub total_transactions: u64,
    /// Sum of the amounts of successfully settled actions.
    pub total_volume: u64,
    /// Number of currently open positions.
    pub open_positions: u8,
    /// Developer fees collected over the vault's life.
    pub total_fees_collected: u64,
}

impl AgentVault {
    pub fn is_active(&self) -> (r: bool)
        ensures
            r == (self.status == VaultStatus::Active),
    {
        self.status == VaultStatus::Active
    }

    pub fn has_agent(&self) -> (r: bool)
        ensures
            r == !self.agent.is_zero(),
    {
        !self.agent.is_default()
    }

    pub fn is_agent(&self, signer: &Pubkey) -> (r: bool)
        ensures
            r == (self.agent == *signer),
    {
        self.agent.same(signer)
    }

    pub fn is_owner(&self, signer: &Pubkey) -> (r: bool)
        ensures
            r == (self.owner == *signer),
    {
        self.owner.same(signer)
    }
}

} // verus!
