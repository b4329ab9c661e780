use vstd::prelude::*;

verus! {

/// Maximum number of allowed tokens in a policy.
pub const MAX_ALLOWED_TOKENS: usize = 10;

/// Maximum number of allowed protocols in a policy.
pub const MAX_ALLOWED_PROTOCOLS: usize = 10;

/// Capacity of the audit ring buffer.
pub const MAX_RECENT_TRANSACTIONS: usize = 50;

/// Maximum number of live rolling spend entries.
pub const MAX_SPEND_ENTRIES: usize = 100;

/// Rolling window duration in seconds (24 hours).
pub const ROLLING_WINDOW_SECONDS: i64 = 86_400;

/// Session lifetime in slots.
pub const SESSION_EXPIRY_SLOTS: u64 = 20;

/// Fee rates are parts per `FEE_RATE_DENOMINATOR`.
pub const FEE_RATE_DENOMINATOR: u64 = 1_000_000;

/// Protocol fee rate, always applied on successful settlement.
pub const PROTOCOL_FEE_RATE: u16 = 20;

/// Ceiling of a policy's developer fee rate.
pub const MAX_DEVELOPER_FEE_RATE: u16 = 50;

/// A 32-byte account address.
#[derive(Clone, Copy, Debug)]
pub struct Pubkey {
    pub bytes: [u8; 32],
}

impl Pubkey {
    pub open spec fn is_zero(self) -> bool {
        forall|i: int| 0 <= i < 32 ==> #[trigger] self.bytes[i] == 0u8
    }

    pub fn new_from_array(bytes: [u8; 32]) -> (r: Pubkey)
        ensures
            r.bytes == bytes,
    {
        Pubkey { bytes }
    }

    pub fn to_bytes(&self) -> (r: [u8; 32])
        ensures
            r == self.bytes,
    {
        self.bytes
    }

    /// The all-zero address, which marks an unset key.
    pub fn zero() -> (r: Pubkey)
        ensures
            r.is_zero(),
    {
        Pubkey { bytes: [0u8; 32] }
    }

    pub fn same(&self, other: &Pubkey) -> (r: bool)
        ensures
            r == (*self == *other),
    {
        let mut i: usize = 0;
        while i < 32
            invariant
                0 <= i <= 32,
                forall|j: int| 0 <= j < i ==> self.bytes[j] == other.bytes[j],
            decreases 32 - i,
        {
            if self.bytes[i] != other.bytes[i] {
                return false;
            }
            i = i + 1;
        }
        assert(self.bytes@ =~= other.bytes@);
        assert(self.bytes == other.bytes);
        true
    }

    pub fn is_default(&self) -> (r: bool)
        ensures
            r == self.is_zero(),
    {
        let mut i: usize = 0;
        while i < 32
            invariant
                0 <= i <= 32,
                forall|j: int| 0 <= j < i ==> self.bytes[j] == 0u8,
            decreases 32 - i,
        {
            if self.bytes[i] != 0 {
                return false;
            }
            i = i + 1;
        }
        true
    }
}

impl PartialEq for Pubkey {
    fn eq(&self, other: &Pubkey) -> (r: bool) {
        self.same(other)
    }
}

impl vstd::std_specs::cmp::PartialEqSpecImpl for Pubkey {
    open spec fn obeys_eq_spec() -> bool {
        true
    }

    open spec fn eq_spec(&self, other: &Pubkey) -> bool {
        *self == *other
    }
}

impl Eq for Pubkey {}

/// The host's time sources: wall-clock seconds and the monotonic slot counter.
#[derive(Clone, Copy, Debug)]
pub struct Clock {
    pub unix_timestamp: i64,
    pub slot: u64,
}

/// Lifecycle state of a vault.
#[derive(Clone, Copy, Debug, PartialEq, Eq, Structural)]
pub enum VaultStatus {
    /// The agent may act.
    Active,
    /// Kill switch engaged: no agent actions.
    Frozen,
    /// Closed for good.
    Closed,
}

impl Default for VaultStatus {
    fn default() -> (r: VaultStatus)
        ensures
            r == VaultStatus::Active,
    {
        VaultStatus::Active
    }
}

/// Kinds of downstream action an agent may request.
#[derive(Clone, Copy, Debug, PartialEq, Eq, Structural)]
pub enum ActionType {
    Swap,
    OpenPosition,
    ClosePosition,
    IncreasePosition,
    DecreasePosition,
    Deposit,
    Withdraw,
}

} // verus!
