//! Properties that relate several operations of the engine.
use vstd::prelude::*;

use crate::admission::{admission_error, admitted, ActionRequest, ValidateAndAuthorize};
use crate::errors::AgentShieldError;
use crate::policy::{exceeds, update_error};
use crate::session::SessionAuthority;
use crate::settlement::{
    effective_success, settled, settled_vault, settlement_error, settlement_of,
    FinalizeSession,
};
use crate::tracker::{
    lemma_total_of_live, live_spends, rolling_spend, window_defined, window_start, SpendEntry,
};
use crate::types::{ActionType, Clock, Pubkey, MAX_ALLOWED_TOKENS, ROLLING_WINDOW_SECONDS};
use crate::vault::AgentVault;

verus! {

/// The rolling spend counts an entry exactly when its timestamp is at least
/// `now - ROLLING_WINDOW_SECONDS`: one at the window's start is included, one
/// a second older is not.
pub proof fn law_rolling_window_edge(s: Seq<SpendEntry>, e: SpendEntry, now: i64)
    ensures
        e.timestamp >= now - ROLLING_WINDOW_SECONDS ==> rolling_spend(s.push(e), e.token_mint, now)
            == rolling_spend(s, e.token_mint, now) + e.amount_spent,
        e.timestamp < now - ROLLING_WINDOW_SECONDS ==> rolling_spend(s.push(e), e.token_mint, now)
            == rolling_spend(s, e.token_mint, now),
        e.timestamp == now - ROLLING_WINDOW_SECONDS ==> rolling_spend(s.push(e), e.token_mint, now)
            == rolling_spend(s, e.token_mint, now) + e.amount_spent,
        e.timestamp == now - ROLLING_WINDOW_SECONDS - 1 ==> rolling_spend(
            s.push(e),
            e.token_mint,
            now,
        ) == rolling_spend(s, e.token_mint, now),
{
    assert(s.push(e).drop_last() =~= s);
}

/// A spend booked at `t` adds exactly its amount to the rolling spend read at `t`.
pub proof fn law_booked_spend_is_counted(s: Seq<SpendEntry>, token: Pubkey, amount: u64, t: i64)
    requires
        window_defined(t),
    ensures
        rolling_spend(
            live_spends(s, window_start(t)).push(
                SpendEntry { token_mint: token, amount_spent: amount, timestamp: t },
            ),
            token,
            t,
        ) == rolling_spend(s, token, t) + amount,
{
    let l = live_spends(s, window_start(t));
    let e = SpendEntry { token_mint: token, amount_spent: amount, timestamp: t };
    lemma_total_of_live(s, window_start(t), token);
    assert(l.push(e).drop_last() =~= l);
}

/// While a session is outstanding for the pair, a second admission fails,
/// whatever it asks for and whenever it comes.
pub proof fn law_one_live_session(
    pre: ValidateAndAuthorize,
    post: ValidateAndAuthorize,
    clock: Clock,
    req: ActionRequest,
    later: Clock,
    next: ActionRequest,
)
    requires
        admission_error(pre, clock, req) is None,
        admitted(pre, post, clock, req),
    ensures
        admission_error(post, later, next) is Some,
{
}

/// A session whose slot has passed settles as a failure even when success is
/// claimed: the audit record says failed, no fee is due, and the vault's
/// aggregates are left as they were.
pub proof fn law_expiry_forces_failure(pre: FinalizeSession, post: FinalizeSession, clock: Clock)
    requires
        pre.session is Some,
        pre.session->Some_0.expired_at(clock.slot),
        settled(pre, post, pre.session->Some_0, true, clock),
    ensures
        post.tracker.recent_transactions@.last().success == false,
        post.vault == pre.vault,
        settlement_of(pre.session->Some_0, pre.policy, true, clock).success == false,
        settlement_of(pre.session->Some_0, pre.policy, true, clock).protocol_fee == 0,
        settlement_of(pre.session->Some_0, pre.policy, true, clock).developer_fee == 0,
{
}

/// Once expired, a session bound to this vault can be settled by anyone.
pub proof fn law_expired_cleanup_is_permissionless(ctx: FinalizeSession, success: bool, clock: Clock)
    requires
        ctx.session is Some,
        ctx.session->Some_0.expired_at(clock.slot),
        ctx.session->Some_0.vault == ctx.vault_key,
        ctx.session_rent_recipient == ctx.session->Some_0.agent,
    ensures
        settlement_error(ctx, success, clock) is None,
{
}

/// A successful open followed by a successful close leaves the vault's count
/// of open positions where it was.
pub proof fn law_open_then_close(v: AgentVault, open: SessionAuthority, close: SessionAuthority, f1: int, f2: int)
    requires
        open.action_type == ActionType::OpenPosition,
        close.action_type == ActionType::ClosePosition,
        v.open_positions < u8::MAX,
    ensures
        settled_vault(v, open, f1).open_positions == v.open_positions + 1,
        settled_vault(settled_vault(v, open, f1), close, f2).open_positions == v.open_positions,
{
}

/// Settling a successful close with no open position fails instead of wrapping.
pub proof fn law_close_never_underflows(ctx: FinalizeSession, success: bool, clock: Clock)
    requires
        ctx.session is Some,
        ctx.session->Some_0.action_type == ActionType::ClosePosition,
        effective_success(ctx.session->Some_0, success, clock),
        ctx.vault.open_positions == 0,
    ensures
        settlement_error(ctx, success, clock) is Some,
{
}

/// A policy update that supplies too many allowed tokens is refused as a
/// whole, whatever else it supplies.
pub proof fn law_policy_update_atomic(
    allowed_tokens: Option<Vec<Pubkey>>,
    allowed_protocols: Option<Vec<Pubkey>>,
    developer_fee_rate: Option<u16>,
)
    requires
        exceeds(allowed_tokens, MAX_ALLOWED_TOKENS),
    ensures
        update_error(allowed_tokens, allowed_protocols, developer_fee_rate) == Some(
            AgentShieldError::TooManyAllowedTokens,
        ),
{
}

} // verus!
