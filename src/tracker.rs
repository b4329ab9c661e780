use vstd::prelude::*;

use crate::errors::AgentShieldError;
use crate::types::{
    ActionType, Pubkey, MAX_RECENT_TRANSACTIONS, MAX_SPEND_ENTRIES, ROLLING_WINDOW_SECONDS,
};

verus! {

/// One admitted action's booked spend.
#[derive(Clone, Copy, Debug, PartialEq)]
pub struct SpendEntry {
    pub token_mint: Pubkey,
    pub amount_spent: u64,
    pub timestamp: i64,
}

/// One line of the audit trail.
#[derive(Clone, Copy, Debug, PartialEq)]
pub struct TransactionRecord {
    pub timestamp: i64,
    pub action_type: ActionType,
    pub token_mint: Pubkey,
    pub amount: u64,
    pub protocol: Pubkey,
    pub success: bool,
    pub slot: u64,
}

/// Whether the start of the rolling window ending at `now` is representable.
pub open spec fn window_defined(now: i64) -> bool {
    now - ROLLING_WINDOW_SECONDS >= i64::MIN
}

/// Start of the rolling window that ends at `now`.
pub open spec fn window_start(now: i64) -> int {
    now - ROLLING_WINDOW_SECONDS
}

/// The entries of `s` that are still inside a window starting at `start`, in order.
pub open spec fn live_spends(s: Seq<SpendEntry>, start: int) -> Seq<SpendEntry>
    decreases s.len(),
{
    if s.len() == 0 {
        s
    } else if s.last().timestamp >= start {
        live_spends(s.drop_last(), start).push(s.last())
    } else {
        live_spends(s.drop_last(), start)
    }
}

/// Sum of the amounts of the entries of `s` for `token` whose timestamp is at
/// least `start`.
pub open spec fn spend_total(s: Seq<SpendEntry>, start: int, token: Pubkey) -> int
    decreases s.len(),
{
    if s.len() == 0 {
        0
    } else {
        spend_total(s.drop_last(), start, token) + if s.last().timestamp >= start
            && s.last().token_mint == token {
            s.last().amount_spent as int
        } else {
            0
        }
    }
}

/// Spend on `token` over the 24h window ending at `now`.
pub open spec fn rolling_spend(s: Seq<SpendEntry>, token: Pubkey, now: i64) -> int {
    spend_total(s, window_start(now), token)
}

/// The audit log after appending `rec`: when full, the oldest record leaves first.
pub open spec fn ring_push(log: Seq<TransactionRecord>, rec: TransactionRecord) -> Seq<
    TransactionRecord,
> {
    if log.len() >= MAX_RECENT_TRANSACTIONS {
        log.subrange(1, log.len() as int).push(rec)
    } else {
        log.push(rec)
    }
}

pub proof fn lemma_live_spends_len(s: Seq<SpendEntry>, start: int)
    ensures
        live_spends(s, start).len() <= s.len(),
    decreases s.len(),
{
    if s.len() > 0 {
        lemma_live_spends_len(s.drop_last(), start);
    }
}

/// Pruning does not change the total over the window it prunes to.
pub proof fn lemma_total_of_live(s: Seq<SpendEntry>, start: int, token: Pubkey)
    ensures
        spend_total(live_spends(s, start), start, token) == spend_total(s, start, token),
    decreases s.len(),
{
    if s.len() > 0 {
        lemma_total_of_live(s.drop_last(), start, token);
        let l = live_spends(s.drop_last(), start);
        if s.last().timestamp >= start {
            assert(l.push(s.last()).drop_last() =~= l);
        }
    }
}

/// Every kept entry lies inside the window.
pub proof fn lemma_live_spends_in_window(s: Seq<SpendEntry>, start: int)
    ensures
        forall|i: int|
            0 <= i < live_spends(s, start).len() ==> #[trigger] live_spends(s, start)[i].timestamp
                >= start,
    decreases s.len(),
{
    if s.len() > 0 {
        lemma_live_spends_in_window(s.drop_last(), start);
        let l = live_spends(s.drop_last(), start);
        if s.last().timestamp >= start {
            assert forall|i: int| 0 <= i < l.push(s.last()).len() implies #[trigger] l.push(
                s.last(),
            )[i].timestamp >= start by {
                if i < l.len() {
                    assert(l.push(s.last())[i] == l[i]);
                }
            }
        }
    }
}

proof fn lemma_total_prefix_mono(s: Seq<SpendEntry>, start: int, token: Pubkey, i: int, j: int)
    requires
        0 <= i <= j <= s.len(),
    ensures
        spend_total(s.subrange(0, i), start, token) <= spend_total(s.subrange(0, j), start, token),
    decreases j - i,
{
    if i < j {
        lemma_total_prefix_mono(s, start, token, i, j - 1);
        assert(s.subrange(0, j).drop_last() =~= s.subrange(0, j - 1));
    }
}

/// Rolling-window spend ledger and audit ring buffer of one vault.
#[derive(Clone, Debug, PartialEq)]
pub struct SpendTracker {
    /// The vault this tracker belongs to.
    pub vault: Pubkey,
    /// Booked spends, oldest first.
    pub rolling_spends: Vec<SpendEntry>,
    /// Audit trail, oldest first, at most `MAX_RECENT_TRANSACTIONS` records.
    pub recent_transactions: Vec<TransactionRecord>,
}

impl SpendTracker {
    pub open spec fn wf(&self) -> bool {
        &&& self.rolling_spends@.len() <= MAX_SPEND_ENTRIES
        &&& self.recent_transactions@.len() <= MAX_RECENT_TRANSACTIONS
    }

    /// An empty tracker for `vault`.
    pub fn new(vault: Pubkey) -> (r: SpendTracker)
        ensures
            r.wf(),
            r.vault == vault,
            r.rolling_spends@.len() == 0,
            r.recent_transactions@.len() == 0,
    {
        SpendTracker { vault, rolling_spends: Vec::new(), recent_transactions: Vec::new() }
    }

    /// The live entries of the ledger for a window starting at `start`, in order.
    fn live_entries(&self, start: i64) -> (r: Vec<SpendEntry>)
        ensures
            r@ == live_spends(self.rolling_spends@, start as int),
    {
        let mut kept: Vec<SpendEntry> = Vec::new();
        let mut i: usize = 0;
        while i < self.rolling_spends.len()
            invariant
                0 <= i <= self.rolling_spends@.len(),
                kept@ == live_spends(self.rolling_spends@.subrange(0, i as int), start as int),
            decreases self.rolling_spends@.len() - i,
        {
            let e = self.rolling_spends[i];
            proof {
                let s = self.rolling_spends@;
                assert(s.subrange(0, i + 1).drop_last() =~= s.subrange(0, i as int));
            }
            if e.timestamp >= start {
                kept.push(e);
            }
            i = i + 1;
        }
        assert(self.rolling_spends@.subrange(0, self.rolling_spends@.len() as int)
            =~= self.rolling_spends@);
        kept
    }

    /// Spend on `token` over the window ending at `now`, without pruning.
    /// Fails with `Overflow` when the window start or the sum does not fit.
    pub fn rolling_spend_at(&self, token_mint: &Pubkey, now: i64) -> (r: Result<
        u64,
        AgentShieldError,
    >)
        ensures
            match r {
                Ok(v) => window_defined(now) && v == rolling_spend(
                    self.rolling_spends@,
                    *token_mint,
                    now,
                ),
                Err(e) => e == AgentShieldError::Overflow && (!window_defined(now) || rolling_spend(
                    self.rolling_spends@,
                    *token_mint,
                    now,
                ) > u64::MAX),
            },
    {
        if now < i64::MIN + ROLLING_WINDOW_SECONDS {
            return Err(AgentShieldError::Overflow);
        }
        let start = now - ROLLING_WINDOW_SECONDS;
        let ghost s = self.rolling_spends@;
        let mut total: u64 = 0;
        let mut i: usize = 0;
        while i < self.rolling_spends.len()
            invariant
                0 <= i <= s.len(),
                s == self.rolling_spends@,
                start == window_start(now),
                total == spend_total(s.subrange(0, i as int), start as int, *token_mint),
            decreases s.len() - i,
        {
            let e = self.rolling_spends[i];
            proof {
                assert(s.subrange(0, i + 1).drop_last() =~= s.subrange(0, i as int));
            }
            if e.timestamp >= start && e.token_mint.same(token_mint) {
                match total.checked_add(e.amount_spent) {
                    Some(t) => {
                        total = t;
                    },
                    None => {
                        proof {
                            lemma_total_prefix_mono(s, start as int, *token_mint, i + 1, s.len() as int);
                            assert(s.subrange(0, s.len() as int) =~= s);
                        }
                        return Err(AgentShieldError::Overflow);
                    },
                }
            }
            i = i + 1;
        }
        assert(s.subrange(0, s.len() as int) =~= s);
        Ok(total)
    }

    /// Drops every entry older than the window ending at `now`, then returns
    /// the spend on `token_mint` over that window.
    pub fn get_rolling_spend(&mut self, token_mint: &Pubkey, current_timestamp: i64) -> (r: Result<
        u64,
        AgentShieldError,
    >)
        requires
            old(self).wf(),
        ensures
            final(self).wf(),
            final(self).vault == old(self).vault,
            final(self).recent_transactions == old(self).recent_transactions,
            !window_defined(current_timestamp) ==> r == Err::<u64, AgentShieldError>(
                AgentShieldError::Overflow,
            ) && *final(self) == *old(self),
            window_defined(current_timestamp) ==> final(self).rolling_spends@ == live_spends(
                old(self).rolling_spends@,
                window_start(current_timestamp),
            ),
            window_defined(current_timestamp) ==> forall|i: int|
                0 <= i < final(self).rolling_spends@.len() ==> #[trigger] final(self).rolling_spends@[i].timestamp
                    >= window_start(current_timestamp),
            match r {
                Ok(v) => window_defined(current_timestamp) && v == rolling_spend(
                    old(self).rolling_spends@,
                    *token_mint,
                    current_timestamp,
                ),
                Err(e) => e == AgentShieldError::Overflow && (!window_defined(current_timestamp)
                    || rolling_spend(old(self).rolling_spends@, *token_mint, current_timestamp)
                    > u64::MAX),
            },
    {
        if current_timestamp < i64::MIN + ROLLING_WINDOW_SECONDS {
            return Err(AgentShieldError::Overflow);
        }
        let start = current_timestamp - ROLLING_WINDOW_SECONDS;
        let kept = self.live_entries(start);
        proof {
            lemma_live_spends_len(old(self).rolling_spends@, start as int);
            lemma_total_of_live(old(self).rolling_spends@, start as int, *token_mint);
            lemma_live_spends_in_window(old(self).rolling_spends@, start as int);
        }
        self.rolling_spends = kept;
        self.rolling_spend_at(token_mint, current_timestamp)
    }

    /// Books a spend at `timestamp`. Entries older than the window are dropped
    /// first; if the window still holds `MAX_SPEND_ENTRIES` live entries the
    /// spend is refused and nothing changes.
    pub fn record_spend(&mut self, token_mint: Pubkey, amount: u64, timestamp: i64) -> (r: Result<
        (),
        AgentShieldError,
    >)
        requires
            old(self).wf(),
        ensures
            final(self).wf(),
            !window_defined(timestamp) ==> r == Err::<(), AgentShieldError>(
                AgentShieldError::Overflow,
            ) && *final(self) == *old(self),
            window_defined(timestamp) && live_spends(
                old(self).rolling_spends@,
                window_start(timestamp),
            ).len() >= MAX_SPEND_ENTRIES ==> r == Err::<(), AgentShieldError>(
                AgentShieldError::TooManySpendEntries,
            ) && *final(self) == *old(self),
            window_defined(timestamp) && live_spends(
                old(self).rolling_spends@,
                window_start(timestamp),
            ).len() < MAX_SPEND_ENTRIES ==> {
                &&& r is Ok
                &&& final(self).vault == old(self).vault
                &&& final(self).recent_transactions == old(self).recent_transactions
                &&& final(self).rolling_spends@ == live_spends(
                    old(self).rolling_spends@,
                    window_start(timestamp),
                ).push(SpendEntry { token_mint, amount_spent: amount, timestamp })
                &&& forall|i: int|
                    0 <= i < final(self).rolling_spends@.len() ==> #[trigger] final(self).rolling_spends@[i].timestamp
                        >= window_start(timestamp)
            },
    {
        if timestamp < i64::MIN + ROLLING_WINDOW_SECONDS {
            return Err(AgentShieldError::Overflow);
        }
        let start = timestamp - ROLLING_WINDOW_SECONDS;
        let mut kept = self.live_entries(start);
        proof {
            lemma_live_spends_in_window(old(self).rolling_spends@, start as int);
        }
        if kept.len() >= MAX_SPEND_ENTRIES {
            return Err(AgentShieldError::TooManySpendEntries);
        }
        kept.push(SpendEntry { token_mint, amount_spent: amount, timestamp });
        self.rolling_spends = kept;
        Ok(())
    }

    /// Appends `record` to the audit ring, evicting the oldest record when full.
    pub fn record_transaction(&mut self, record: TransactionRecord)
        requires
            old(self).wf(),
        ensures
            final(self).wf(),
            final(self).vault == old(self).vault,
            final(self).rolling_spends == old(self).rolling_spends,
            final(self).recent_transactions@ == ring_push(old(self).recent_transactions@, record),
    {
        if self.recent_transactions.len() >= MAX_RECENT_TRANSACTIONS {
            self.recent_transactions.remove(0);
            proof {
                assert(old(self).recent_transactions@.remove(0) =~= old(
                    self,
                ).recent_transactions@.subrange(1, old(self).recent_transactions@.len() as int));
            }
        }
        self.recent_transactions.push(record);
    }
}

} // verus!
