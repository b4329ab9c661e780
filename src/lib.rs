//! Authorization and accounting engine for agent vaults: a policy evaluator,
//! a rolling-window spend ledger, single-use session capabilities and the
//! settlement that reconciles a session's outcome into vault state and fees.
pub mod types;
pub mod errors;
pub mod policy;
pub mod tracker;
pub mod session;
pub mod vault;
pub mod admission;
pub mod settlement;
pub mod lifecycle;
pub mod laws;

pub use types::{
    ActionType, Clock, Pubkey, VaultStatus, FEE_RATE_DENOMINATOR, MAX_ALLOWED_PROTOCOLS,
    MAX_ALLOWED_TOKENS, MAX_DEVELOPER_FEE_RATE, MAX_RECENT_TRANSACTIONS, MAX_SPEND_ENTRIES,
    PROTOCOL_FEE_RATE, ROLLING_WINDOW_SECONDS, SESSION_EXPIRY_SLOTS,
};
pub use errors::AgentShieldError;
pub use policy::PolicyConfig;
pub use tracker::{SpendEntry, SpendTracker, TransactionRecord};
pub use session::SessionAuthority;
pub use vault::AgentVault;
pub use admission::{validate_and_authorize, ValidateAndAuthorize};
pub use lifecycle::{
    close_vault, deposit_funds, initialize_vault, reactivate_vault, register_agent, revoke_agent,
    update_policy, withdraw_funds, VaultRecords,
};
pub use settlement::{
    calculate_fee, finalize_session, protocol_treasury, FinalizeSession, Settlement, TokenAccount,
    PROTOCOL_TREASURY_BYTES,
};
