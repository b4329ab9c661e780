use agent_shield::{
    calculate_fee, finalize_session, initialize_vault, protocol_treasury, register_agent,
    validate_and_authorize, ActionType, AgentShieldError, Clock, FinalizeSession,
    Pubkey, TokenAccount, ValidateAndAuthorize, VaultStatus,
};

const OWNER: u8 = 1;
const AGENT: u8 = 2;
const VAULT: u8 = 3;
const FEE_DEST: u8 = 4;
const TOKEN: u8 = 10;
const OTHER_TOKEN: u8 = 11;
const PROTOCOL: u8 = 20;
const START: i64 = 1_700_000_000;

fn key(n: u8) -> Pubkey {
    Pubkey::new_from_array([n; 32])
}

fn clock(t: i64, slot: u64) -> Clock {
    Clock { unix_timestamp: t, slot }
}

fn setup(cap: u64, max_tx: u64, dev_rate: u16, max_positions: u8) -> ValidateAndAuthorize {
    let rec = initialize_vault(
        key(OWNER),
        key(VAULT),
        key(FEE_DEST),
        clock(START, 1),
        7,
        cap,
        max_tx,
        vec![key(TOKEN), key(OTHER_TOKEN)],
        vec![key(PROTOCOL)],
        1000,
        max_positions,
        dev_rate,
    )
    .unwrap();
    let mut vault = rec.vault;
    register_agent(&mut vault, key(OWNER), key(AGENT)).unwrap();
    ValidateAndAuthorize {
        agent: key(AGENT),
        vault_key: key(VAULT),
        vault,
        policy: rec.policy,
        tracker: rec.tracker,
        session: None,
    }
}

struct Req {
    action_type: ActionType,
    token_mint: Pubkey,
    amount: u64,
    target_protocol: Pubkey,
    leverage_bps: Option<u16>,
}

fn authorize(ctx: &mut ValidateAndAuthorize, c: Clock, r: Req) -> Result<u64, AgentShieldError> {
    validate_and_authorize(ctx, c, r.action_type, r.token_mint, r.amount, r.target_protocol, r.leverage_bps)
}

fn request(action_type: ActionType, amount: u64) -> Req {
    Req {
        action_type,
        token_mint: key(TOKEN),
        amount,
        target_protocol: key(PROTOCOL),
        leverage_bps: None,
    }
}

fn token_account(owner: Pubkey) -> Option<TokenAccount> {
    Some(TokenAccount { mint: key(TOKEN), owner, amount: 1_000_000_000 })
}

fn to_finalize(a: ValidateAndAuthorize, payer: Pubkey) -> FinalizeSession {
    let rent = match a.session {
        Some(s) => s.agent,
        None => a.agent,
    };
    FinalizeSession {
        payer,
        vault_key: a.vault_key,
        vault: a.vault,
        policy: a.policy,
        tracker: a.tracker,
        session: a.session,
        session_rent_recipient: rent,
        vault_token_account: token_account(key(VAULT)),
        fee_destination_token_account: token_account(key(FEE_DEST)),
        protocol_treasury_token_account: token_account(protocol_treasury()),
    }
}

fn to_admission(f: FinalizeSession) -> ValidateAndAuthorize {
    ValidateAndAuthorize {
        agent: key(AGENT),
        vault_key: f.vault_key,
        vault: f.vault,
        policy: f.policy,
        tracker: f.tracker,
        session: f.session,
    }
}

#[test]
fn end_to_end_daily_cap() {
    let mut ctx = setup(1000, 500, 0, 3);
    let c = clock(START, 10);
    assert_eq!(authorize(&mut ctx, c, request(ActionType::Swap, 400)), Ok(400));
    assert_eq!(ctx.tracker.get_rolling_spend(&key(TOKEN), START), Ok(400));
    let mut f = to_finalize(ctx, key(AGENT));
    finalize_session(&mut f, true, c).unwrap();
    let mut ctx = to_admission(f);

    assert_eq!(authorize(&mut ctx, c, request(ActionType::Swap, 400)), Ok(800));
    assert_eq!(ctx.tracker.get_rolling_spend(&key(TOKEN), START), Ok(800));
    let mut f = to_finalize(ctx, key(AGENT));
    finalize_session(&mut f, true, c).unwrap();
    let mut ctx = to_admission(f);

    let before = ctx.tracker.clone();
    assert_eq!(
        authorize(&mut ctx, c, request(ActionType::Swap, 300)),
        Err(AgentShieldError::DailyCapExceeded)
    );
    assert!(ctx.session.is_none());
    assert_eq!(ctx.tracker, before);
    assert_eq!(ctx.tracker.get_rolling_spend(&key(TOKEN), START), Ok(800));
}

#[test]
fn admission_creates_exact_session() {
    let mut ctx = setup(1000, 500, 0, 3);
    let req = Req {
        action_type: ActionType::Deposit,
        token_mint: key(TOKEN),
        amount: 123,
        target_protocol: key(PROTOCOL),
        leverage_bps: Some(1000),
    };
    assert_eq!(authorize(&mut ctx, clock(START, 50), req), Ok(123));
    let s = ctx.session.unwrap();
    assert_eq!(s.vault, key(VAULT));
    assert_eq!(s.agent, key(AGENT));
    assert!(s.authorized);
    assert_eq!(s.authorized_amount, 123);
    assert_eq!(s.authorized_token, key(TOKEN));
    assert_eq!(s.authorized_protocol, key(PROTOCOL));
    assert_eq!(s.action_type, ActionType::Deposit);
    assert_eq!(s.expires_at_slot, 70);
    assert_eq!(ctx.tracker.rolling_spends.len(), 1);
    assert_eq!(ctx.tracker.rolling_spends[0].timestamp, START);
}

fn expect_denied(ctx: &mut ValidateAndAuthorize, c: Clock, req: Req, e: AgentShieldError) {
    let tracker = ctx.tracker.clone();
    let session = ctx.session;
    let vault = ctx.vault;
    assert_eq!(authorize(ctx, c, req), Err(e));
    assert_eq!(ctx.tracker, tracker);
    assert_eq!(ctx.session, session);
    assert_eq!(ctx.vault, vault);
}

#[test]
fn admission_denials_change_nothing() {
    let c = clock(START, 10);

    let mut ctx = setup(1000, 500, 0, 3);
    ctx.agent = key(99);
    expect_denied(&mut ctx, c, request(ActionType::Swap, 10), AgentShieldError::UnauthorizedAgent);

    let mut ctx = setup(1000, 500, 0, 3);
    ctx.vault.status = VaultStatus::Frozen;
    expect_denied(&mut ctx, c, request(ActionType::Swap, 10), AgentShieldError::VaultNotActive);

    let mut ctx = setup(1000, 500, 0, 3);
    expect_denied(&mut ctx, c, request(ActionType::Swap, 0), AgentShieldError::TransactionTooLarge);

    let mut req = request(ActionType::Swap, 10);
    req.token_mint = key(12);
    expect_denied(&mut ctx, c, req, AgentShieldError::TokenNotAllowed);

    let mut req = request(ActionType::Swap, 10);
    req.target_protocol = key(21);
    expect_denied(&mut ctx, c, req, AgentShieldError::ProtocolNotAllowed);

    expect_denied(&mut ctx, c, request(ActionType::Swap, 501), AgentShieldError::TransactionTooLarge);

    let mut req = request(ActionType::Swap, 10);
    req.leverage_bps = Some(1001);
    expect_denied(&mut ctx, c, req, AgentShieldError::LeverageTooHigh);

    ctx.policy.can_open_positions = false;
    expect_denied(
        &mut ctx,
        c,
        request(ActionType::OpenPosition, 10),
        AgentShieldError::PositionOpeningDisallowed,
    );
    ctx.policy.can_open_positions = true;
    ctx.vault.open_positions = 3;
    expect_denied(&mut ctx, c, request(ActionType::OpenPosition, 10), AgentShieldError::TooManyPositions);
}

#[test]
fn admission_checks_in_fixed_order() {
    // Both the token and the size are wrong: the token check comes first.
    let mut ctx = setup(1000, 500, 0, 3);
    let mut req = request(ActionType::Swap, 10_000);
    req.token_mint = key(12);
    expect_denied(&mut ctx, clock(START, 1), req, AgentShieldError::TokenNotAllowed);
}

#[test]
fn admission_overflow_is_distinct_from_cap() {
    let mut ctx = setup(u64::MAX, u64::MAX, 0, 3);
    let c = clock(START, 10);
    assert_eq!(authorize(&mut ctx, c, request(ActionType::Swap, u64::MAX - 5)), Ok(u64::MAX - 5));
    ctx.session = None;
    expect_denied(&mut ctx, c, request(ActionType::Swap, 6), AgentShieldError::Overflow);
    assert_eq!(authorize(&mut ctx, c, request(ActionType::Swap, 5)), Ok(u64::MAX));
}

#[test]
fn second_session_for_same_agent_fails() {
    let mut ctx = setup(1000, 500, 0, 3);
    let c = clock(START, 10);
    assert_eq!(authorize(&mut ctx, c, request(ActionType::Swap, 10)), Ok(10));
    let first = ctx.session;
    expect_denied(&mut ctx, clock(START + 1, 11), request(ActionType::Swap, 20), AgentShieldError::SessionAlreadyExists);
    assert_eq!(ctx.session, first);
}

#[test]
fn expiry_forces_failure() {
    let mut ctx = setup(1000, 500, 50, 3);
    assert_eq!(authorize(&mut ctx, clock(START, 100), request(ActionType::Swap, 500)), Ok(500));
    let mut f = to_finalize(ctx, key(77));
    let vault_before = f.vault;
    let r = finalize_session(&mut f, true, clock(START + 30, 121)).unwrap();
    assert!(!r.success);
    assert_eq!(r.protocol_fee, 0);
    assert_eq!(r.developer_fee, 0);
    assert_eq!(r.rent_recipient, key(AGENT));
    assert_eq!(f.vault, vault_before);
    assert!(f.session.is_none());
    let log = &f.tracker.recent_transactions;
    assert_eq!(log.len(), 1);
    assert!(!log[0].success);
    assert_eq!(log[0].slot, 121);
    assert_eq!(log[0].amount, 500);
}

#[test]
fn live_session_settles_only_by_its_agent() {
    let mut ctx = setup(1000, 500, 0, 3);
    assert_eq!(authorize(&mut ctx, clock(START, 100), request(ActionType::Swap, 5)), Ok(5));
    let mut f = to_finalize(ctx, key(77));
    assert_eq!(finalize_session(&mut f, true, clock(START, 120)), Err(AgentShieldError::UnauthorizedAgent));
    assert!(f.session.is_some());
    assert!(f.tracker.recent_transactions.is_empty());
}

#[test]
fn rent_goes_back_to_the_agent() {
    let mut ctx = setup(1000, 500, 0, 3);
    assert_eq!(authorize(&mut ctx, clock(START, 100), request(ActionType::Swap, 5)), Ok(5));
    let mut f = to_finalize(ctx, key(AGENT));
    f.session_rent_recipient = key(77);
    assert_eq!(finalize_session(&mut f, true, clock(START, 101)), Err(AgentShieldError::InvalidSession));
}

#[test]
fn settling_twice_fails() {
    let mut ctx = setup(1000, 500, 0, 3);
    assert_eq!(authorize(&mut ctx, clock(START, 100), request(ActionType::Swap, 5)), Ok(5));
    let mut f = to_finalize(ctx, key(AGENT));
    assert!(finalize_session(&mut f, true, clock(START, 101)).is_ok());
    assert_eq!(finalize_session(&mut f, true, clock(START, 102)), Err(AgentShieldError::SessionNotFound));
}

#[test]
fn fee_arithmetic() {
    assert_eq!(calculate_fee(1_000_000, 20), Some(20));
    assert_eq!(calculate_fee(1_000_000, 50), Some(50));
    assert_eq!(calculate_fee(999_999, 20), Some(19));
    assert_eq!(calculate_fee(u64::MAX, 20), None);

    let mut ctx = setup(10_000_000, 10_000_000, 50, 3);
    assert_eq!(authorize(&mut ctx, clock(START, 1), request(ActionType::Swap, 1_000_000)), Ok(1_000_000));
    let mut f = to_finalize(ctx, key(AGENT));
    let before = f.vault.total_fees_collected;
    let r = finalize_session(&mut f, true, clock(START, 2)).unwrap();
    assert!(r.success);
    assert_eq!(r.protocol_fee, 20);
    assert_eq!(r.developer_fee, 50);
    assert_eq!(f.vault.total_fees_collected, before + 50);
    assert_eq!(f.vault.total_transactions, 1);
    assert_eq!(f.vault.total_volume, 1_000_000);
    assert!(f.tracker.recent_transactions[0].success);
}

#[test]
fn fee_accounts_must_match() {
    let mut ctx = setup(10_000_000, 10_000_000, 50, 3);
    assert!(authorize(&mut ctx, clock(START, 1), request(ActionType::Swap, 1_000_000)).is_ok());
    let mut f = to_finalize(ctx, key(AGENT));

    f.vault_token_account = None;
    assert_eq!(finalize_session(&mut f, true, clock(START, 2)), Err(AgentShieldError::InvalidFeeDestination));
    f.vault_token_account = token_account(key(VAULT));

    f.protocol_treasury_token_account = token_account(key(55));
    assert_eq!(finalize_session(&mut f, true, clock(START, 2)), Err(AgentShieldError::InvalidProtocolTreasury));
    f.protocol_treasury_token_account = token_account(protocol_treasury());

    f.fee_destination_token_account = Some(TokenAccount { mint: key(OTHER_TOKEN), owner: key(FEE_DEST), amount: 0 });
    assert_eq!(finalize_session(&mut f, true, clock(START, 2)), Err(AgentShieldError::InvalidFeeDestination));
    assert!(f.session.is_some());
    assert_eq!(f.vault.total_transactions, 0);

    // A failed outcome moves no fee, so no fee account is needed.
    f.vault_token_account = None;
    let r = finalize_session(&mut f, false, clock(START, 2)).unwrap();
    assert!(!r.success);
    assert_eq!(r.protocol_fee, 0);
    assert_eq!(f.vault.total_transactions, 0);
}

#[test]
fn small_amount_needs_no_fee_accounts() {
    let mut ctx = setup(1000, 1000, 50, 3);
    assert!(authorize(&mut ctx, clock(START, 1), request(ActionType::Swap, 100)).is_ok());
    let mut f = to_finalize(ctx, key(AGENT));
    f.vault_token_account = None;
    f.protocol_treasury_token_account = None;
    f.fee_destination_token_account = None;
    let r = finalize_session(&mut f, true, clock(START, 2)).unwrap();
    assert_eq!((r.protocol_fee, r.developer_fee), (0, 0));
    assert_eq!(f.vault.total_volume, 100);
}

#[test]
fn position_counting() {
    let mut ctx = setup(1000, 500, 0, 3);
    let c = clock(START, 1);
    assert!(authorize(&mut ctx, c, request(ActionType::OpenPosition, 10)).is_ok());
    let mut f = to_finalize(ctx, key(AGENT));
    finalize_session(&mut f, true, c).unwrap();
    assert_eq!(f.vault.open_positions, 1);
    let mut ctx = to_admission(f);
    assert!(authorize(&mut ctx, c, request(ActionType::ClosePosition, 10)).is_ok());
    let mut f = to_finalize(ctx, key(AGENT));
    finalize_session(&mut f, true, c).unwrap();
    assert_eq!(f.vault.open_positions, 0);

    let mut ctx = to_admission(f);
    assert!(authorize(&mut ctx, c, request(ActionType::ClosePosition, 10)).is_ok());
    let mut f = to_finalize(ctx, key(AGENT));
    assert_eq!(finalize_session(&mut f, true, c), Err(AgentShieldError::Overflow));
    assert_eq!(f.vault.open_positions, 0);
    assert!(f.session.is_some());
}

#[test]
fn unauthorized_session_cannot_settle_before_expiry() {
    let mut ctx = setup(1000, 500, 0, 3);
    assert_eq!(authorize(&mut ctx, clock(START, 100), request(ActionType::Swap, 5)), Ok(5));
    let mut f = to_finalize(ctx, key(AGENT));
    let mut s = f.session.unwrap();
    s.authorized = false;
    f.session = Some(s);
    assert_eq!(finalize_session(&mut f, true, clock(START, 101)), Err(AgentShieldError::SessionNotAuthorized));
    // Once expired, anyone may clean it up.
    f.payer = key(77);
    let r = finalize_session(&mut f, true, clock(START, 121)).unwrap();
    assert!(!r.success);
}

#[test]
fn session_of_another_vault_is_refused() {
    let mut ctx = setup(1000, 500, 0, 3);
    assert_eq!(authorize(&mut ctx, clock(START, 100), request(ActionType::Swap, 5)), Ok(5));
    let mut f = to_finalize(ctx, key(AGENT));
    f.vault_key = key(88);
    assert_eq!(finalize_session(&mut f, true, clock(START, 101)), Err(AgentShieldError::InvalidSession));
}

#[test]
fn fee_overflow_is_an_error() {
    let mut ctx = setup(u64::MAX, u64::MAX, 50, 3);
    let amount = u64::MAX / 20 + 1;
    assert_eq!(authorize(&mut ctx, clock(START, 1), request(ActionType::Swap, amount)), Ok(amount));
    let mut f = to_finalize(ctx, key(AGENT));
    assert_eq!(finalize_session(&mut f, true, clock(START, 2)), Err(AgentShieldError::Overflow));
    assert!(f.session.is_some());
    assert!(f.tracker.recent_transactions.is_empty());
}
