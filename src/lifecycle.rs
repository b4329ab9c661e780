use vstd::prelude::*;

use crate::errors::AgentShieldError;
use crate::policy::{or_keep, update_error, PolicyConfig};
use crate::tracker::SpendTracker;
use crate::types::{
    Clock, Pubkey, VaultStatus, MAX_ALLOWED_PROTOCOLS, MAX_ALLOWED_TOKENS, MAX_DEVELOPER_FEE_RATE,
};
use crate::vault::AgentVault;

verus! {

/// The three long-lived records of a new vault.
pub struct VaultRecords {
    pub vault: AgentVault,
    pub policy: PolicyConfig,
    pub tracker: SpendTracker,
}

/// Why creating a vault with these settings is refused, if it is.
pub open spec fn initialize_error(
    fee_destination: Pubkey,
    allowed_tokens: Seq<Pubkey>,
    allowed_protocols: Seq<Pubkey>,
    developer_fee_rate: u16,
) -> Option<AgentShieldError> {
    if allowed_tokens.len() > MAX_ALLOWED_TOKENS {
        Some(AgentShieldError::TooManyAllowedTokens)
    } else if allowed_protocols.len() > MAX_ALLOWED_PROTOCOLS {
        Some(AgentShieldError::TooManyAllowedProtocols)
    } else if developer_fee_rate > MAX_DEVELOPER_FEE_RATE {
        Some(AgentShieldError::DeveloperFeeTooHigh)
    } else if fee_destination.is_zero() {
        Some(AgentShieldError::InvalidFeeDestination)
    } else {
        None
    }
}

/// Creates an active vault with no agent, its policy and an empty tracker.
pub fn initialize_vault(
    owner: Pubkey,
    vault_key: Pubkey,
    fee_destination: Pubkey,
    clock: Clock,
    vault_id: u64,
    daily_spending_cap: u64,
    max_transaction_size: u64,
    allowed_tokens: Vec<Pubkey>,
    allowed_protocols: Vec<Pubkey>,
    max_leverage_bps: u16,
    max_concurrent_positions: u8,
    developer_fee_rate: u16,
) -> (r: Result<VaultRecords, AgentShieldError>)
    ensures
        match initialize_error(
            fee_destination,
            allowed_tokens@,
            allowed_protocols@,
            developer_fee_rate,
        ) {
            Some(e) => r is Err && r->Err_0 == e,
            None => r is Ok && {
                let rec = r->Ok_0;
                &&& rec.vault == AgentVault {
                    owner,
                    agent: rec.vault.agent,
                    fee_destination,
                    vault_id,
                    status: VaultStatus::Active,
                    created_at: clock.unix_timestamp,
                    total_transactions: 0,
                    total_volume: 0,
                    open_positions: 0,
                    total_fees_collected: 0,
                }
                &&& rec.vault.agent.is_zero()
                &&& rec.policy.wf()
                &&& rec.policy.vault == vault_key
                &&& rec.policy.daily_spending_cap == daily_spending_cap
                &&& rec.policy.max_transaction_size == max_transaction_size
                &&& rec.policy.allowed_tokens == allowed_tokens
                &&& rec.policy.allowed_protocols == allowed_protocols
                &&& rec.policy.max_leverage_bps == max_leverage_bps
                &&& rec.policy.can_open_positions
                &&& rec.policy.max_concurrent_positions == max_concurrent_positions
                &&& rec.policy.developer_fee_rate == developer_fee_rate
                &&& rec.tracker.wf()
                &&& rec.tracker.vault == vault_key
                &&& rec.tracker.rolling_spends@.len() == 0
                &&& rec.tracker.recent_transactions@.len() == 0
            },
        },
{
    if allowed_tokens.len() > MAX_ALLOWED_TOKENS {
        return Err(AgentShieldError::TooManyAllowedTokens);
    }
    if allowed_protocols.len() > MAX_ALLOWED_PROTOCOLS {
        return Err(AgentShieldError::TooManyAllowedProtocols);
    }
    if developer_fee_rate > MAX_DEVELOPER_FEE_RATE {
        return Err(AgentShieldError::DeveloperFeeTooHigh);
    }
    if fee_destination.is_default() {
        return Err(AgentShieldError::InvalidFeeDestination);
    }
    let vault = AgentVault {
        owner,
        agent: Pubkey::zero(),
        fee_destination,
        vault_id,
        status: VaultStatus::Active,
        created_at: clock.unix_timestamp,
        total_transactions: 0,
        total_volume: 0,
        open_positions: 0,
        total_fees_collected: 0,
    };
    let policy = PolicyConfig {
        vault: vault_key,
        daily_spending_cap,
        max_transaction_size,
        allowed_tokens,
        allowed_protocols,
        max_leverage_bps,
        can_open_positions: true,
        max_concurrent_positions,
        developer_fee_rate,
    };
    let tracker = SpendTracker::new(vault_key);
    Ok(VaultRecords { vault, policy, tracker })
}

/// Why registering `agent` is refused, if it is.
pub open spec fn register_error(v: AgentVault, signer: Pubkey, agent: Pubkey) -> Option<
    AgentShieldError,
> {
    if v.owner != signer {
        Some(AgentShieldError::UnauthorizedOwner)
    } else if v.status == VaultStatus::Closed {
        Some(AgentShieldError::VaultAlreadyClosed)
    } else if !v.agent.is_zero() {
        Some(AgentShieldError::AgentAlreadyRegistered)
    } else if agent.is_zero() {
        Some(AgentShieldError::InvalidAgentKey)
    } else if agent == v.owner {
        Some(AgentShieldError::AgentIsOwner)
    } else {
        None
    }
}

/// The owner registers the vault's agent; a vault has at most one.
pub fn register_agent(vault: &mut AgentVault, signer: Pubkey, agent: Pubkey) -> (r: Result<
    (),
    AgentShieldError,
>)
    ensures
        match register_error(*old(vault), signer, agent) {
            Some(e) => r == Err::<(), AgentShieldError>(e) && *final(vault) == *old(vault),
            None => r is Ok && *final(vault) == AgentVault { agent, ..*old(vault) },
        },
{
    if !vault.is_owner(&signer) {
        return Err(AgentShieldError::UnauthorizedOwner);
    }
    if vault.status == VaultStatus::Closed {
        return Err(AgentShieldError::VaultAlreadyClosed);
    }
    if vault.has_agent() {
        return Err(AgentShieldError::AgentAlreadyRegistered);
    }
    if agent.is_default() {
        return Err(AgentShieldError::InvalidAgentKey);
    }
    if agent.same(&vault.owner) {
        return Err(AgentShieldError::AgentIsOwner);
    }
    vault.agent = agent;
    Ok(())
}

/// Why an owner-only operation on `v` is refused before its own checks.
pub open spec fn owner_open_error(v: AgentVault, signer: Pubkey) -> Option<AgentShieldError> {
    if v.owner != signer {
        Some(AgentShieldError::UnauthorizedOwner)
    } else if v.status == VaultStatus::Closed {
        Some(AgentShieldError::VaultAlreadyClosed)
    } else {
        None
    }
}

fn check_owner_open(vault: &AgentVault, signer: &Pubkey) -> (r: Result<(), AgentShieldError>)
    ensures
        match owner_open_error(*vault, *signer) {
            Some(e) => r == Err::<(), AgentShieldError>(e),
            None => r is Ok,
        },
{
    if !vault.is_owner(signer) {
        return Err(AgentShieldError::UnauthorizedOwner);
    }
    if vault.status == VaultStatus::Closed {
        return Err(AgentShieldError::VaultAlreadyClosed);
    }
    Ok(())
}

/// The owner rewrites part of the policy; see `PolicyConfig::update`.
pub fn update_policy(
    vault: &AgentVault,
    policy: &mut PolicyConfig,
    signer: Pubkey,
    daily_spending_cap: Option<u64>,
    max_transaction_size: Option<u64>,
    allowed_tokens: Option<Vec<Pubkey>>,
    allowed_protocols: Option<Vec<Pubkey>>,
    max_leverage_bps: Option<u16>,
    can_open_positions: Option<bool>,
    max_concurrent_positions: Option<u8>,
    developer_fee_rate: Option<u16>,
) -> (r: Result<(), AgentShieldError>)
    requires
        old(policy).wf(),
    ensures
        final(policy).wf(),
        owner_open_error(*vault, signer) is Some ==> r == Err::<(), AgentShieldError>(
            owner_open_error(*vault, signer)->Some_0,
        ) && *final(policy) == *old(policy),
        owner_open_error(*vault, signer) is None && update_error(
            allowed_tokens,
            allowed_protocols,
            developer_fee_rate,
        ) is Some ==> r == Err::<(), AgentShieldError>(
            update_error(allowed_tokens, allowed_protocols, developer_fee_rate)->Some_0,
        ) && *final(policy) == *old(policy),
        owner_open_error(*vault, signer) is None && update_error(
            allowed_tokens,
            allowed_protocols,
            developer_fee_rate,
        ) is None ==> {
            &&& r is Ok
            &&& final(policy).vault == old(policy).vault
            &&& final(policy).daily_spending_cap == or_keep(
                daily_spending_cap,
                old(policy).daily_spending_cap,
            )
            &&& final(policy).max_transaction_size == or_keep(
                max_transaction_size,
                old(policy).max_transaction_size,
            )
            &&& final(policy).allowed_tokens == or_keep(allowed_tokens, old(policy).allowed_tokens)
            &&& final(policy).allowed_protocols == or_keep(
                allowed_protocols,
                old(policy).allowed_protocols,
            )
            &&& final(policy).max_leverage_bps == or_keep(max_leverage_bps, old(policy).max_leverage_bps)
            &&& final(policy).can_open_positions == or_keep(
                can_open_positions,
                old(policy).can_open_positions,
            )
            &&& final(policy).max_concurrent_positions == or_keep(
                max_concurrent_positions,
                old(policy).max_concurrent_positions,
            )
            &&& final(policy).developer_fee_rate == or_keep(
                developer_fee_rate,
                old(policy).developer_fee_rate,
            )
        },
{
    match check_owner_open(vault, &signer) {
        Ok(()) => {},
        Err(e) => {
            return Err(e);
        },
    }
    policy.update(
        daily_spending_cap,
        max_transaction_size,
        allowed_tokens,
        allowed_protocols,
        max_leverage_bps,
        can_open_positions,
        max_concurrent_positions,
        developer_fee_rate,
    )
}

/// Kill switch: freezes the vault and clears the agent key. Returns the
/// agent that was registered.
pub fn revoke_agent(vault: &mut AgentVault, signer: Pubkey) -> (r: Result<Pubkey, AgentShieldError>)
    ensures
        match owner_open_error(*old(vault), signer) {
            Some(e) => r == Err::<Pubkey, AgentShieldError>(e) && *final(vault) == *old(vault),
            None => {
                &&& r == Ok::<Pubkey, AgentShieldError>(old(vault).agent)
                &&& final(vault).agent.is_zero()
                &&& *final(vault) == AgentVault {
                    status: VaultStatus::Frozen,
                    agent: final(vault).agent,
                    ..*old(vault)
                }
            },
        },
{
    match check_owner_open(vault, &signer) {
        Ok(()) => {},
        Err(e) => {
            return Err(e);
        },
    }
    let agent = vault.agent;
    vault.status = VaultStatus::Frozen;
    vault.agent = Pubkey::zero();
    Ok(agent)
}

/// Why reactivating the vault is refused, if it is.
pub open spec fn reactivate_error(v: AgentVault, signer: Pubkey, new_agent: Option<Pubkey>) -> Option<
    AgentShieldError,
> {
    if v.owner != signer {
        Some(AgentShieldError::UnauthorizedOwner)
    } else if v.status != VaultStatus::Frozen {
        Some(AgentShieldError::VaultNotFrozen)
    } else if new_agent is Some && new_agent->Some_0.is_zero() {
        Some(AgentShieldError::InvalidAgentKey)
    } else if new_agent is Some && new_agent->Some_0 == v.owner {
        Some(AgentShieldError::AgentIsOwner)
    } else {
        None
    }
}

/// Unfreezes the vault, optionally installing a new agent key.
pub fn reactivate_vault(vault: &mut AgentVault, signer: Pubkey, new_agent: Option<Pubkey>) -> (r:
    Result<(), AgentShieldError>)
    ensures
        match reactivate_error(*old(vault), signer, new_agent) {
            Some(e) => r == Err::<(), AgentShieldError>(e) && *final(vault) == *old(vault),
            None => r is Ok && *final(vault) == AgentVault {
                status: VaultStatus::Active,
                agent: or_keep(new_agent, old(vault).agent),
                ..*old(vault)
            },
        },
{
    if !vault.is_owner(&signer) {
        return Err(AgentShieldError::UnauthorizedOwner);
    }
    if vault.status != VaultStatus::Frozen {
        return Err(AgentShieldError::VaultNotFrozen);
    }
    if let Some(agent_key) = new_agent {
        if agent_key.is_default() {
            return Err(AgentShieldError::InvalidAgentKey);
        }
        if agent_key.same(&vault.owner) {
            return Err(AgentShieldError::AgentIsOwner);
        }
        vault.agent = agent_key;
    }
    vault.status = VaultStatus::Active;
    Ok(())
}

/// Closes the vault for good; refused while positions are open.
pub fn close_vault(vault: &mut AgentVault, signer: Pubkey) -> (r: Result<(), AgentShieldError>)
    ensures
        owner_open_error(*old(vault), signer) is Some ==> r == Err::<(), AgentShieldError>(
            owner_open_error(*old(vault), signer)->Some_0,
        ) && *final(vault) == *old(vault),
        owner_open_error(*old(vault), signer) is None && old(vault).open_positions != 0 ==> r
            == Err::<(), AgentShieldError>(AgentShieldError::OpenPositionsExist) && *final(vault)
            == *old(vault),
        owner_open_error(*old(vault), signer) is None && old(vault).open_positions == 0 ==> (r is Ok)
            && *final(vault) == (AgentVault { status: VaultStatus::Closed, ..*old(vault) }),
{
    match check_owner_open(vault, &signer) {
        Ok(()) => {},
        Err(e) => {
            return Err(e);
        },
    }
    if vault.open_positions != 0 {
        return Err(AgentShieldError::OpenPositionsExist);
    }
    vault.status = VaultStatus::Closed;
    Ok(())
}

/// Whether the owner may move `amount` into the vault.
pub fn deposit_funds(vault: &AgentVault, signer: Pubkey, amount: u64) -> (r: Result<
    (),
    AgentShieldError,
>)
    ensures
        match owner_open_error(*vault, signer) {
            Some(e) => r == Err::<(), AgentShieldError>(e),
            None => r is Ok,
        },
{
    check_owner_open(vault, &signer)
}

/// Whether the owner may take `amount` out of a vault token account holding `balance`.
pub fn withdraw_funds(vault: &AgentVault, signer: Pubkey, balance: u64, amount: u64) -> (r: Result<
    (),
    AgentShieldError,
>)
    ensures
        owner_open_error(*vault, signer) is Some ==> r == Err::<(), AgentShieldError>(
            owner_open_error(*vault, signer)->Some_0,
        ),
        owner_open_error(*vault, signer) is None && balance < amount ==> r == Err::<
            (),
            AgentShieldError,
        >(AgentShieldError::InsufficientBalance),
        owner_open_error(*vault, signer) is None && balance >= amount ==> r is Ok,
{
    match check_owner_open(vault, &signer) {
        Ok(()) => {},
        Err(e) => {
            return Err(e);
        },
    }
    if balance < amount {
        return Err(AgentShieldError::InsufficientBalance);
    }
    Ok(())
}

} // verus!
