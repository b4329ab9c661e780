use vstd::prelude::*;

use crate::errors::AgentShieldError;
use crate::policy::PolicyConfig;
use crate::session::SessionAuthority;
use crate::tracker::{ring_push, SpendTracker, TransactionRecord};
use crate::types::{ActionType, Clock, Pubkey, FEE_RATE_DENOMINATOR, PROTOCOL_FEE_RATE};
use crate::vault::AgentVault;

verus! {

/// Address bytes of the protocol treasury that receives protocol fees.
pub const PROTOCOL_TREASURY_BYTES: [u8; 32] = [
    140, 51, 155, 5, 120, 99, 25, 69, 20, 4, 163, 87, 229, 124, 111, 239, 107, 28, 230, 192, 254,
    239, 33, 251, 37, 93, 179, 29, 45, 226, 14, 172,
];

pub open spec fn protocol_treasury_key() -> Pubkey {
    Pubkey { bytes: PROTOCOL_TREASURY_BYTES }
}

/// The protocol treasury's address.
pub fn protocol_treasury() -> (r: Pubkey)
    ensures
        r == protocol_treasury_key(),
{
    Pubkey { bytes: PROTOCOL_TREASURY_BYTES }
}

/// What settlement reads of a token account.
#[derive(Clone, Copy, Debug, PartialEq)]
pub struct TokenAccount {
    pub mint: Pubkey,
    pub owner: Pubkey,
    pub amount: u64,
}

/// Whether the product `amount * rate` fits in 64 bits.
pub open spec fn fee_fits(amount: u64, rate: u16) -> bool {
    amount * rate <= u64::MAX
}

/// `amount * rate / FEE_RATE_DENOMINATOR`, rounded down.
pub open spec fn fee_of(amount: u64, rate: u16) -> int {
    (amount * rate) / (FEE_RATE_DENOMINATOR as int)
}

/// Fee on `amount` at `rate` parts per million; `None` when the product overflows.
pub fn calculate_fee(amount: u64, rate: u16) -> (r: Option<u64>)
    ensures
        match r {
            Some(f) => fee_fits(amount, rate) && f == fee_of(amount, rate),
            None => !fee_fits(amount, rate),
        },
{
    match amount.checked_mul(rate as u64) {
        Some(p) => Some(p / FEE_RATE_DENOMINATOR),
        None => None,
    }
}

/// Whether a supplied token account exists, belongs to `owner` and holds `mint`.
pub open spec fn account_matches(a: Option<TokenAccount>, owner: Pubkey, mint: Pubkey) -> bool {
    match a {
        Some(t) => t.owner == owner && t.mint == mint,
        None => false,
    }
}

fn check_account(a: &Option<TokenAccount>, owner: &Pubkey, mint: &Pubkey) -> (r: bool)
    ensures
        r == account_matches(*a, *owner, *mint),
{
    match a {
        Some(t) => t.owner.same(owner) && t.mint.same(mint),
        None => false,
    }
}

/// Open positions after a successful action of kind `a`.
pub open spec fn positions_after(p: u8, a: ActionType) -> int {
    match a {
        ActionType::OpenPosition => p + 1,
        ActionType::ClosePosition => p - 1,
        _ => p as int,
    }
}

/// The records a settlement reads and writes.
pub struct FinalizeSession {
    /// The signer asking to settle.
    pub payer: Pubkey,
    /// Address of the vault record.
    pub vault_key: Pubkey,
    pub vault: AgentVault,
    pub policy: PolicyConfig,
    pub tracker: SpendTracker,
    /// The session slot being settled.
    pub session: Option<SessionAuthority>,
    /// The account that is to receive the session's storage deposit.
    pub session_rent_recipient: Pubkey,
    /// The vault's token account for the session's token (fee source).
    pub vault_token_account: Option<TokenAccount>,
    /// Token account of the vault's developer fee destination.
    pub fee_destination_token_account: Option<TokenAccount>,
    /// Token account of the protocol treasury.
    pub protocol_treasury_token_account: Option<TokenAccount>,
}

impl FinalizeSession {
    pub open spec fn wf(&self) -> bool {
        self.policy.wf() && self.tracker.wf()
    }
}

/// What the host has to carry out after a settlement: the fee transfers out
/// of the vault's token account and the return of the session's deposit.
#[derive(Clone, Copy, Debug, PartialEq)]
pub struct Settlement {
    /// The recorded outcome: the caller's claim, forced to false once expired.
    pub success: bool,
    /// Amount to move to the protocol treasury.
    pub protocol_fee: u64,
    /// Amount to move to the vault's fee destination.
    pub developer_fee: u64,
    /// Who gets the session's storage deposit back.
    pub rent_recipient: Pubkey,
}

/// The recorded outcome of settling `s`: a claimed success counts only before expiry.
pub open spec fn effective_success(s: SessionAuthority, success: bool, clock: Clock) -> bool {
    success && !s.expired_at(clock.slot)
}

/// The first check that refuses the settlement, in the engine's fixed order,
/// or `None` when it goes through.
pub open spec fn settlement_error(ctx: FinalizeSession, success: bool, clock: Clock) -> Option<
    AgentShieldError,
> {
    match ctx.session {
        None => Some(AgentShieldError::SessionNotFound),
        Some(s) => {
            let expired = s.expired_at(clock.slot);
            let amount = s.authorized_amount;
            let token = s.authorized_token;
            let rate = ctx.policy.developer_fee_rate;
            let pf = fee_of(amount, PROTOCOL_FEE_RATE);
            let df = fee_of(amount, rate);
            let v = ctx.vault;
            if s.vault != ctx.vault_key {
                Some(AgentShieldError::InvalidSession)
            } else if ctx.session_rent_recipient != s.agent {
                Some(AgentShieldError::InvalidSession)
            } else if !expired && ctx.payer != s.agent {
                Some(AgentShieldError::UnauthorizedAgent)
            } else if !expired && !s.authorized {
                Some(AgentShieldError::SessionNotAuthorized)
            } else if !effective_success(s, success, clock) {
                None
            } else if !fee_fits(amount, PROTOCOL_FEE_RATE) || !fee_fits(amount, rate) {
                Some(AgentShieldError::Overflow)
            } else if (pf > 0 || df > 0) && !account_matches(
                ctx.vault_token_account,
                ctx.vault_key,
                token,
            ) {
                Some(AgentShieldError::InvalidFeeDestination)
            } else if pf > 0 && !account_matches(
                ctx.protocol_treasury_token_account,
                protocol_treasury_key(),
                token,
            ) {
                Some(AgentShieldError::InvalidProtocolTreasury)
            } else if df > 0 && !account_matches(
                ctx.fee_destination_token_account,
                v.fee_destination,
                token,
            ) {
                Some(AgentShieldError::InvalidFeeDestination)
            } else if v.total_fees_collected + df > u64::MAX {
                Some(AgentShieldError::Overflow)
            } else if v.total_transactions + 1 > u64::MAX {
                Some(AgentShieldError::Overflow)
            } else if v.total_volume + amount > u64::MAX {
                Some(AgentShieldError::Overflow)
            } else if !(0 <= positions_after(v.open_positions, s.action_type) <= u8::MAX) {
                Some(AgentShieldError::Overflow)
            } else {
                None
            }
        },
    }
}

/// The settlement handed back for a session that settles without error.
pub open spec fn settlement_of(s: SessionAuthority, policy: PolicyConfig, success: bool, clock: Clock) -> Settlement {
    let eff = effective_success(s, success, clock);
    Settlement {
        success: eff,
        protocol_fee: if eff {
            fee_of(s.authorized_amount, PROTOCOL_FEE_RATE) as u64
        } else {
            0
        },
        developer_fee: if eff {
            fee_of(s.authorized_amount, policy.developer_fee_rate) as u64
        } else {
            0
        },
        rent_recipient: s.agent,
    }
}

/// The vault's aggregates after a successful settlement of `s`.
pub open spec fn settled_vault(v: AgentVault, s: SessionAuthority, developer_fee: int) -> AgentVault {
    AgentVault {
        total_fees_collected: (v.total_fees_collected + developer_fee) as u64,
        total_transactions: (v.total_transactions + 1) as u64,
        total_volume: (v.total_volume + s.authorized_amount) as u64,
        open_positions: positions_after(v.open_positions, s.action_type) as u8,
        ..v
    }
}

/// The audit record written when `s` is settled.
pub open spec fn audit_record(s: SessionAuthority, success: bool, clock: Clock) -> TransactionRecord {
    TransactionRecord {
        timestamp: clock.unix_timestamp,
        action_type: s.action_type,
        token_mint: s.authorized_token,
        amount: s.authorized_amount,
        protocol: s.authorized_protocol,
        success: effective_success(s, success, clock),
        slot: clock.slot,
    }
}

/// The state after settling session `s` without error.
pub open spec fn settled(
    pre: FinalizeSession,
    post: FinalizeSession,
    s: SessionAuthority,
    success: bool,
    clock: Clock,
) -> bool {
    &&& post.session is None
    &&& post.vault == if effective_success(s, success, clock) {
        settled_vault(pre.vault, s, fee_of(s.authorized_amount, pre.policy.developer_fee_rate))
    } else {
        pre.vault
    }
    &&& post.tracker.vault == pre.tracker.vault
    &&& post.tracker.rolling_spends == pre.tracker.rolling_spends
    &&& post.tracker.recent_transactions@ == ring_push(
        pre.tracker.recent_transactions@,
        audit_record(s, success, clock),
    )
    &&& post.policy == pre.policy
    &&& post.payer == pre.payer
    &&& post.vault_key == pre.vault_key
    &&& post.session_rent_recipient == pre.session_rent_recipient
    &&& post.vault_token_account == pre.vault_token_account
    &&& post.fee_destination_token_account == pre.fee_destination_token_account
    &&& post.protocol_treasury_token_account == pre.protocol_treasury_token_account
}

/// Consumes the outstanding session: records its outcome in the audit log,
/// and on success updates the vault's aggregates and reports the fees to move.
/// Before expiry only the session's agent may settle; after it anyone may, and
/// the outcome is recorded as failed. On error nothing changes.
pub fn finalize_session(ctx: &mut FinalizeSession, success: bool, clock: Clock) -> (r: Result<
    Settlement,
    AgentShieldError,
>)
    requires
        old(ctx).wf(),
    ensures
        final(ctx).wf(),
        match settlement_error(*old(ctx), success, clock) {
            Some(e) => r == Err::<Settlement, AgentShieldError>(e) && *final(ctx) == *old(ctx),
            None => {
                let s = old(ctx).session->Some_0;
                &&& r == Ok::<Settlement, AgentShieldError>(
                    settlement_of(s, old(ctx).policy, success, clock),
                )
                &&& settled(*old(ctx), *final(ctx), s, success, clock)
            },
        },
{
    let s = match ctx.session {
        Some(s) => s,
        None => {
            return Err(AgentShieldError::SessionNotFound);
        },
    };
    if !s.vault.same(&ctx.vault_key) {
        return Err(AgentShieldError::InvalidSession);
    }
    if !ctx.session_rent_recipient.same(&s.agent) {
        return Err(AgentShieldError::InvalidSession);
    }
    let is_expired = s.is_expired(clock.slot);
    if !is_expired {
        if !ctx.payer.same(&s.agent) {
            return Err(AgentShieldError::UnauthorizedAgent);
        }
        if !s.authorized {
            return Err(AgentShieldError::SessionNotAuthorized);
        }
    }
    // Expired sessions are always recorded as failed.
    let success = success && !is_expired;
    let amount = s.authorized_amount;
    let token = s.authorized_token;
    let mut protocol_fee: u64 = 0;
    let mut developer_fee: u64 = 0;
    let mut vault = ctx.vault;
    if success {
        protocol_fee = match calculate_fee(amount, PROTOCOL_FEE_RATE) {
            Some(f) => f,
            None => {
                return Err(AgentShieldError::Overflow);
            },
        };
        developer_fee = match calculate_fee(amount, ctx.policy.developer_fee_rate) {
            Some(f) => f,
            None => {
                return Err(AgentShieldError::Overflow);
            },
        };
        if protocol_fee > 0 || developer_fee > 0 {
            if !check_account(&ctx.vault_token_account, &ctx.vault_key, &token) {
                return Err(AgentShieldError::InvalidFeeDestination);
            }
            if protocol_fee > 0 {
                let treasury = protocol_treasury();
                if !check_account(&ctx.protocol_treasury_token_account, &treasury, &token) {
                    return Err(AgentShieldError::InvalidProtocolTreasury);
                }
            }
            if developer_fee > 0 {
                if !check_account(
                    &ctx.fee_destination_token_account,
                    &vault.fee_destination,
                    &token,
                ) {
                    return Err(AgentShieldError::InvalidFeeDestination);
                }
            }
        }
        vault.total_fees_collected = match vault.total_fees_collected.checked_add(developer_fee) {
            Some(t) => t,
            None => {
                return Err(AgentShieldError::Overflow);
            },
        };
        vault.total_transactions = match vault.total_transactions.checked_add(1) {
            Some(t) => t,
            None => {
                return Err(AgentShieldError::Overflow);
            },
        };
        vault.total_volume = match vault.total_volume.checked_add(amount) {
            Some(t) => t,
            None => {
                return Err(AgentShieldError::Overflow);
            },
        };
        match s.action_type {
            ActionType::OpenPosition => {
                vault.open_positions = match vault.open_positions.checked_add(1) {
                    Some(p) => p,
                    None => {
                        return Err(AgentShieldError::Overflow);
                    },
                };
            },
            ActionType::ClosePosition => {
                vault.open_positions = match vault.open_positions.checked_sub(1) {
                    Some(p) => p,
                    None => {
                        return Err(AgentShieldError::Overflow);
                    },
                };
            },
            _ => {},
        }
    }
    // Every check has passed: commit.
    ctx.vault = vault;
    ctx.tracker.record_transaction(
        TransactionRecord {
            timestamp: clock.unix_timestamp,
            action_type: s.action_type,
            token_mint: token,
            amount,
            protocol: s.authorized_protocol,
            success,
            slot: clock.slot,
        },
    );
    ctx.session = None;
    Ok(Settlement { success, protocol_fee, developer_fee, rent_recipient: s.agent })
}

} // verus!
