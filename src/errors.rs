use vstd::prelude::*;

verus! {

/// Every way an operation of the engine can be refused.
#[derive(Clone, Copy, Debug, PartialEq, Eq, Structural)]
pub enum AgentShieldError {
    VaultNotActive,
    UnauthorizedAgent,
    UnauthorizedOwner,
    TokenNotAllowed,
    ProtocolNotAllowed,
    TransactionTooLarge,
    DailyCapExceeded,
    LeverageTooHigh,
    TooManyPositions,
    PositionOpeningDisallowed,
    SessionExpired,
    SessionNotAuthorized,
    InvalidSession,
    OpenPositionsExist,
    TooManyAllowedTokens,
    TooManyAllowedProtocols,
    AgentAlreadyRegistered,
    NoAgentRegistered,
    VaultNotFrozen,
    VaultAlreadyClosed,
    InsufficientBalance,
    DeveloperFeeTooHigh,
    InvalidFeeDestination,
    InvalidProtocolTreasury,
    TooManySpendEntries,
    InvalidAgentKey,
    AgentIsOwner,
    Overflow,
    /// A session for this (vault, agent) pair is already outstanding.
    SessionAlreadyExists,
    /// No session is outstanding for this (vault, agent) pair.
    SessionNotFound,
}

impl AgentShieldError {
    /// Human-readable description of the error.
    pub fn message(&self) -> (r: &'static str) {
        match self {
            AgentShieldError::VaultNotActive => "Vault is not active",
            AgentShieldError::UnauthorizedAgent => "Unauthorized: signer is not the registered agent",
            AgentShieldError::UnauthorizedOwner => "Unauthorized: signer is not the vault owner",
            AgentShieldError::TokenNotAllowed => "Token not in allowed list",
            AgentShieldError::ProtocolNotAllowed => "Protocol not in allowed list",
            AgentShieldError::TransactionTooLarge => "Transaction exceeds maximum single transaction size",
            AgentShieldError::DailyCapExceeded => "Daily spending cap would be exceeded",
            AgentShieldError::LeverageTooHigh => "Leverage exceeds maximum allowed",
            AgentShieldError::TooManyPositions => "Maximum concurrent open positions reached",
            AgentShieldError::PositionOpeningDisallowed => "Cannot open new positions (policy disallows)",
            AgentShieldError::SessionExpired => "Session has expired",
            AgentShieldError::SessionNotAuthorized => "Session not authorized",
            AgentShieldError::InvalidSession => "Invalid session: does not belong to this vault",
            AgentShieldError::OpenPositionsExist => "Vault has open positions, cannot close",
            AgentShieldError::TooManyAllowedTokens => "Policy configuration invalid: too many allowed tokens",
            AgentShieldError::TooManyAllowedProtocols => "Policy configuration invalid: too many allowed protocols",
            AgentShieldError::AgentAlreadyRegistered => "Agent already registered for this vault",
            AgentShieldError::NoAgentRegistered => "No agent registered for this vault",
            AgentShieldError::VaultNotFrozen => "Vault is not frozen (expected frozen for reactivation)",
            AgentShieldError::VaultAlreadyClosed => "Vault is already closed",
            AgentShieldError::InsufficientBalance => "Insufficient vault balance for withdrawal",
            AgentShieldError::DeveloperFeeTooHigh => "Developer fee rate exceeds maximum (50 / 1,000,000 = 0.5 BPS)",
            AgentShieldError::InvalidFeeDestination => "Fee destination account invalid",
            AgentShieldError::InvalidProtocolTreasury => "Protocol treasury account does not match expected address",
            AgentShieldError::TooManySpendEntries => "Spend entry limit reached (too many active entries in rolling window)",
            AgentShieldError::InvalidAgentKey => "Invalid agent: cannot be the zero address",
            AgentShieldError::AgentIsOwner => "Invalid agent: agent cannot be the vault owner",
            AgentShieldError::Overflow => "Arithmetic overflow",
            AgentShieldError::SessionAlreadyExists => "A session is already outstanding for this agent",
            AgentShieldError::SessionNotFound => "No outstanding session for this agent",
        }
    }
}

} // verus!
