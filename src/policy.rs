use vstd::prelude::*;

use crate::errors::AgentShieldError;
use crate::types::{Pubkey, MAX_ALLOWED_PROTOCOLS, MAX_ALLOWED_TOKENS, MAX_DEVELOPER_FEE_RATE};

verus! {

/// `Some(v)` replaces, `None` keeps the current value.
pub open spec fn or_keep<T>(o: Option<T>, current: T) -> T {
    match o {
        Some(v) => v,
        None => current,
    }
}

/// Whether an optional list is present and longer than `max`.
pub open spec fn exceeds(o: Option<Vec<Pubkey>>, max: usize) -> bool {
    match o {
        Some(v) => v@.len() > max,
        None => false,
    }
}

/// Whether an optional fee rate is present and above the ceiling.
pub open spec fn fee_rate_exceeds(o: Option<u16>) -> bool {
    match o {
        Some(r) => r > MAX_DEVELOPER_FEE_RATE,
        None => false,
    }
}

/// The first bound that a policy update would break, checked in the order
/// tokens, protocols, developer fee rate.
pub open spec fn update_error(
    allowed_tokens: Option<Vec<Pubkey>>,
    allowed_protocols: Option<Vec<Pubkey>>,
    developer_fee_rate: Option<u16>,
) -> Option<AgentShieldError> {
    if exceeds(allowed_tokens, MAX_ALLOWED_TOKENS) {
        Some(AgentShieldError::TooManyAllowedTokens)
    } else if exceeds(allowed_protocols, MAX_ALLOWED_PROTOCOLS) {
        Some(AgentShieldError::TooManyAllowedProtocols)
    } else if fee_rate_exceeds(developer_fee_rate) {
        Some(AgentShieldError::DeveloperFeeTooHigh)
    } else {
        None
    }
}

/// The owner's ruleset for one vault.
#[derive(Clone, Debug, PartialEq)]
pub struct PolicyConfig {
    /// The vault this policy governs.
    pub vault: Pubkey,
    /// Maximum spend per token over the rolling 24h window.
    pub daily_spending_cap: u64,
    /// Maximum size of a single action.
    pub max_transaction_size: u64,
    /// Token mints the agent may use; at most `MAX_ALLOWED_TOKENS`.
    pub allowed_tokens: Vec<Pubkey>,
    /// Program ids the agent may target; at most `MAX_ALLOWED_PROTOCOLS`.
    pub allowed_protocols: Vec<Pubkey>,
    /// Leverage ceiling in basis points; 0 disallows leverage.
    pub max_leverage_bps: u16,
    /// Whether new positions may be opened at all.
    pub can_open_positions: bool,
    /// Ceiling on the vault's count of open positions.
    pub max_concurrent_positions: u8,
    /// Developer fee in parts per million; at most `MAX_DEVELOPER_FEE_RATE`.
    pub developer_fee_rate: u16,
}

impl PolicyConfig {
    /// The bounds that every write keeps.
    pub open spec fn wf(&self) -> bool {
        &&& self.allowed_tokens@.len() <= MAX_ALLOWED_TOKENS
        &&& self.allowed_protocols@.len() <= MAX_ALLOWED_PROTOCOLS
        &&& self.developer_fee_rate <= MAX_DEVELOPER_FEE_RATE
    }

    pub fn is_token_allowed(&self, mint: &Pubkey) -> (r: bool)
        ensures
            r == self.allowed_tokens@.contains(*mint),
    {
        contains_key(&self.allowed_tokens, mint)
    }

    pub fn is_protocol_allowed(&self, program_id: &Pubkey) -> (r: bool)
        ensures
            r == self.allowed_protocols@.contains(*program_id),
    {
        contains_key(&self.allowed_protocols, program_id)
    }

    pub fn is_leverage_within_limit(&self, leverage_bps: u16) -> (r: bool)
        ensures
            r == (leverage_bps <= self.max_leverage_bps),
    {
        leverage_bps <= self.max_leverage_bps
    }

    /// Applies a partial update. Each `Some` field replaces the stored value;
    /// if any supplied list or rate breaks its bound, nothing is changed.
    pub fn update(
        &mut self,
        daily_spending_cap: Option<u64>,
        max_transaction_size: Option<u64>,
        allowed_tokens: Option<Vec<Pubkey>>,
        allowed_protocols: Option<Vec<Pubkey>>,
        max_leverage_bps: Option<u16>,
        can_open_positions: Option<bool>,
        max_concurrent_positions: Option<u8>,
        developer_fee_rate: Option<u16>,
    ) -> (r: Result<(), AgentShieldError>)
        requires
            old(self).wf(),
        ensures
            final(self).wf(),
            match update_error(allowed_tokens, allowed_protocols, developer_fee_rate) {
                Some(e) => r == Err::<(), AgentShieldError>(e) && *final(self) == *old(self),
                None => {
                    &&& r is Ok
                    &&& final(self).vault == old(self).vault
                    &&& final(self).daily_spending_cap == or_keep(
                        daily_spending_cap,
                        old(self).daily_spending_cap,
                    )
                    &&& final(self).max_transaction_size == or_keep(
                        max_transaction_size,
                        old(self).max_transaction_size,
                    )
                    &&& final(self).allowed_tokens == or_keep(allowed_tokens, old(self).allowed_tokens)
                    &&& final(self).allowed_protocols == or_keep(
                        allowed_protocols,
                        old(self).allowed_protocols,
                    )
                    &&& final(self).max_leverage_bps == or_keep(max_leverage_bps, old(self).max_leverage_bps)
                    &&& final(self).can_open_positions == or_keep(
                        can_open_positions,
                        old(self).can_open_positions,
                    )
                    &&& final(self).max_concurrent_positions == or_keep(
                        max_concurrent_positions,
                        old(self).max_concurrent_positions,
                    )
                    &&& final(self).developer_fee_rate == or_keep(
                        developer_fee_rate,
                        old(self).developer_fee_rate,
                    )
                },
            },
    {
        // Validate every bounded field before touching anything.
        match &allowed_tokens {
            Some(t) => {
                if t.len() > MAX_ALLOWED_TOKENS {
                    return Err(AgentShieldError::TooManyAllowedTokens);
                }
            },
            None => {},
        }
        match &allowed_protocols {
            Some(p) => {
                if p.len() > MAX_ALLOWED_PROTOCOLS {
                    return Err(AgentShieldError::TooManyAllowedProtocols);
                }
            },
            None => {},
        }
        match developer_fee_rate {
            Some(f) => {
                if f > MAX_DEVELOPER_FEE_RATE {
                    return Err(AgentShieldError::DeveloperFeeTooHigh);
                }
            },
            None => {},
        }
        if let Some(cap) = daily_spending_cap {
            self.daily_spending_cap = cap;
        }
        if let Some(max_tx) = max_transaction_size {
            self.max_transaction_size = max_tx;
        }
        if let Some(tokens) = allowed_tokens {
            self.allowed_tokens = tokens;
        }
        if let Some(protocols) = allowed_protocols {
            self.allowed_protocols = protocols;
        }
        if let Some(leverage) = max_leverage_bps {
            self.max_leverage_bps = leverage;
        }
        if let Some(can_open) = can_open_positions {
            self.can_open_positions = can_open;
        }
        if let Some(max_pos) = max_concurrent_positions {
            self.max_concurrent_positions = max_pos;
        }
        if let Some(fee_rate) = developer_fee_rate {
            self.developer_fee_rate = fee_rate;
        }
        Ok(())
    }
}

/// Linear membership scan over a short list of keys.
pub fn contains_key(keys: &Vec<Pubkey>, key: &Pubkey) -> (r: bool)
    ensures
        r == keys@.contains(*key),
{
    let mut i: usize = 0;
    while i < keys.len()
        invariant
            0 <= i <= keys@.len(),
            forall|j: int| 0 <= j < i ==> keys@[j] != *key,
        decreases keys@.len() - i,
    {
        if keys[i].same(key) {
            assert(keys@[i as int] == *key);
            return true;
        }
        i = i + 1;
    }
    false
}

} // verus!
