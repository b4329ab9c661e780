use vstd::prelude::*;

use crate::errors::AgentShieldError;
use crate::policy::PolicyConfig;
use crate::session::{expiry_of, SessionAuthority};
use crate::tracker::{live_spends, rolling_spend, window_defined, window_start, SpendEntry, SpendTracker};
use crate::types::{ActionType, Clock, Pubkey, VaultStatus, MAX_SPEND_ENTRIES};
use crate::vault::AgentVault;

verus! {

/// The records an admission reads and writes.
pub struct ValidateAndAuthorize {
    /// The signer requesting the action.
    pub agent: Pubkey,
    /// Address of the vault record.
    pub vault_key: Pubkey,
    pub vault: AgentVault,
    pub policy: PolicyConfig,
    pub tracker: SpendTracker,
    /// The session slot of the (vault, signer) pair; `Some` while a session is outstanding.
    pub session: Option<SessionAuthority>,
}

impl ValidateAndAuthorize {
    pub open spec fn wf(&self) -> bool {
        self.policy.wf() && self.tracker.wf()
    }
}

/// What an admission request asks for.
pub struct ActionRequest {
    pub action_type: ActionType,
    pub token_mint: Pubkey,
    pub amount: u64,
    pub target_protocol: Pubkey,
    pub leverage_bps: Option<u16>,
}

/// The request made of its parts.
pub open spec fn request_of(
    action_type: ActionType,
    token_mint: Pubkey,
    amount: u64,
    target_protocol: Pubkey,
    leverage_bps: Option<u16>,
) -> ActionRequest {
    ActionRequest { action_type, token_mint, amount, target_protocol, leverage_bps }
}

/// The first check that refuses the request, in the engine's fixed order, or
/// `None` when the request is admitted.
pub open spec fn admission_error(
    ctx: ValidateAndAuthorize,
    clock: Clock,
    req: ActionRequest,
) -> Option<AgentShieldError> {
    let spends = ctx.tracker.rolling_spends@;
    let now = clock.unix_timestamp;
    let policy = ctx.policy;
    if ctx.vault.agent != ctx.agent {
        Some(AgentShieldError::UnauthorizedAgent)
    } else if ctx.session is Some {
        Some(AgentShieldError::SessionAlreadyExists)
    } else if ctx.vault.status != VaultStatus::Active {
        Some(AgentShieldError::VaultNotActive)
    } else if req.amount == 0 {
        Some(AgentShieldError::TransactionTooLarge)
    } else if !policy.allowed_tokens@.contains(req.token_mint) {
        Some(AgentShieldError::TokenNotAllowed)
    } else if !policy.allowed_protocols@.contains(req.target_protocol) {
        Some(AgentShieldError::ProtocolNotAllowed)
    } else if req.amount > policy.max_transaction_size {
        Some(AgentShieldError::TransactionTooLarge)
    } else if !window_defined(now) || rolling_spend(spends, req.token_mint, now) + req.amount
        > u64::MAX {
        Some(AgentShieldError::Overflow)
    } else if rolling_spend(spends, req.token_mint, now) + req.amount > policy.daily_spending_cap {
        Some(AgentShieldError::DailyCapExceeded)
    } else if req.leverage_bps is Some && req.leverage_bps->Some_0 > policy.max_leverage_bps {
        Some(AgentShieldError::LeverageTooHigh)
    } else if req.action_type == ActionType::OpenPosition && !policy.can_open_positions {
        Some(AgentShieldError::PositionOpeningDisallowed)
    } else if req.action_type == ActionType::OpenPosition && ctx.vault.open_positions
        >= policy.max_concurrent_positions {
        Some(AgentShieldError::TooManyPositions)
    } else if live_spends(spends, window_start(now)).len() >= MAX_SPEND_ENTRIES {
        Some(AgentShieldError::TooManySpendEntries)
    } else {
        None
    }
}

/// The session minted by a successful admission.
pub open spec fn granted_session(
    ctx: ValidateAndAuthorize,
    clock: Clock,
    req: ActionRequest,
) -> SessionAuthority {
    SessionAuthority {
        vault: ctx.vault_key,
        agent: ctx.agent,
        authorized: true,
        authorized_amount: req.amount,
        authorized_token: req.token_mint,
        authorized_protocol: req.target_protocol,
        action_type: req.action_type,
        expires_at_slot: expiry_of(clock.slot),
    }
}

/// The state after a successful admission: the spend is booked into the
/// pruned ledger and the session slot holds the new capability.
pub open spec fn admitted(
    pre: ValidateAndAuthorize,
    post: ValidateAndAuthorize,
    clock: Clock,
    req: ActionRequest,
) -> bool {
    &&& post.agent == pre.agent
    &&& post.vault_key == pre.vault_key
    &&& post.vault == pre.vault
    &&& post.policy == pre.policy
    &&& post.tracker.vault == pre.tracker.vault
    &&& post.tracker.recent_transactions == pre.tracker.recent_transactions
    &&& post.tracker.rolling_spends@ == live_spends(
        pre.tracker.rolling_spends@,
        window_start(clock.unix_timestamp),
    ).push(
        SpendEntry {
            token_mint: req.token_mint,
            amount_spent: req.amount,
            timestamp: clock.unix_timestamp,
        },
    )
    &&& post.session == Some(granted_session(pre, clock, req))
}

/// Decides whether the agent may perform the requested action. On success the spend is
/// booked, a session is created, and the rolling spend on the token including
/// this action is returned. On failure nothing changes.
pub fn validate_and_authorize(
    ctx: &mut ValidateAndAuthorize,
    clock: Clock,
    action_type: ActionType,
    token_mint: Pubkey,
    amount: u64,
    target_protocol: Pubkey,
    leverage_bps: Option<u16>,
) -> (r: Result<u64, AgentShieldError>)
    requires
        old(ctx).wf(),
    ensures
        final(ctx).wf(),
        r is Err ==> *final(ctx) == *old(ctx),
        old(ctx).session is Some ==> r is Err,
        match admission_error(
            *old(ctx),
            clock,
            request_of(action_type, token_mint, amount, target_protocol, leverage_bps),
        ) {
            Some(e) => r == Err::<u64, AgentShieldError>(e) && *final(ctx) == *old(ctx),
            None => {
                &&& r == Ok::<u64, AgentShieldError>(
                    (rolling_spend(old(ctx).tracker.rolling_spends@, token_mint, clock.unix_timestamp)
                        + amount) as u64,
                )
                &&& admitted(
                    *old(ctx),
                    *final(ctx),
                    clock,
                    request_of(action_type, token_mint, amount, target_protocol, leverage_bps),
                )
            },
        },
{
    let req = ActionRequest { action_type, token_mint, amount, target_protocol, leverage_bps };
    let now = clock.unix_timestamp;
    if !ctx.vault.is_agent(&ctx.agent) {
        return Err(AgentShieldError::UnauthorizedAgent);
    }
    if ctx.session.is_some() {
        return Err(AgentShieldError::SessionAlreadyExists);
    }
    if !ctx.vault.is_active() {
        return Err(AgentShieldError::VaultNotActive);
    }
    if req.amount == 0 {
        return Err(AgentShieldError::TransactionTooLarge);
    }
    if !ctx.policy.is_token_allowed(&req.token_mint) {
        return Err(AgentShieldError::TokenNotAllowed);
    }
    if !ctx.policy.is_protocol_allowed(&req.target_protocol) {
        return Err(AgentShieldError::ProtocolNotAllowed);
    }
    if req.amount > ctx.policy.max_transaction_size {
        return Err(AgentShieldError::TransactionTooLarge);
    }
    let rolling = match ctx.tracker.rolling_spend_at(&req.token_mint, now) {
        Ok(v) => v,
        Err(e) => {
            return Err(e);
        },
    };
    let new_total = match rolling.checked_add(req.amount) {
        Some(t) => t,
        None => {
            return Err(AgentShieldError::Overflow);
        },
    };
    if new_total > ctx.policy.daily_spending_cap {
        return Err(AgentShieldError::DailyCapExceeded);
    }
    if let Some(lev) = req.leverage_bps {
        if !ctx.policy.is_leverage_within_limit(lev) {
            return Err(AgentShieldError::LeverageTooHigh);
        }
    }
    if req.action_type == ActionType::OpenPosition {
        if !ctx.policy.can_open_positions {
            return Err(AgentShieldError::PositionOpeningDisallowed);
        }
        if ctx.vault.open_positions >= ctx.policy.max_concurrent_positions {
            return Err(AgentShieldError::TooManyPositions);
        }
    }
    // Book the spend and mint the session as one step.
    match ctx.tracker.record_spend(req.token_mint, req.amount, now) {
        Ok(()) => {},
        Err(e) => {
            return Err(e);
        },
    }
    ctx.session = Some(
        SessionAuthority {
            vault: ctx.vault_key,
            agent: ctx.agent,
            authorized: true,
            authorized_amount: req.amount,
            authorized_token: req.token_mint,
            authorized_protocol: req.target_protocol,
            action_type: req.action_type,
            expires_at_slot: SessionAuthority::calculate_expiry(clock.slot),
        },
    );
    Ok(new_total)
}

} // verus!
