//! In-memory, append-only policy event ledger.
//!
//! Entries are filed per policy in the order they are appended; each gets
//! the next sequence number of its policy, starting at 1. Reads return a
//! policy's entries ordered by effective instant, then sequence number, so
//! an out-of-sequence correction (effective earlier than entries already
//! recorded) sorts into its place in policy time. Instants are
//! microseconds since the Unix epoch.

use std::collections::HashMap;
use vstd::prelude::*;
use crate::ids::{uuid_string, uuid_text, CustomerId, PolicyId, QuoteId, UserId};
use crate::pas_domain::EndorsementId;
use crate::timeline::{
    distinct_keys, in_time_order, kept, lemma_kept_distinct, lemma_time_order_unique, now_micros,
    time_ordered, Timed,
};

verus! {

broadcast use vstd::std_specs::hash::group_hash_axioms;

#[derive(Debug, PartialEq, Eq)]
pub enum LedgerEntryKind {
    QuoteCreated,
    Bound,
    Issued,
    Endorsed { endorsement_id: EndorsementId },
    Cancelled { reason: String },
    Reinstated,
    Expired,
    PremiumAdjusted { delta_cents: i64 },
}

impl Clone for LedgerEntryKind {
    fn clone(&self) -> (r: Self)
        ensures
            r == *self,
    {
        match self {
            LedgerEntryKind::QuoteCreated => LedgerEntryKind::QuoteCreated,
            LedgerEntryKind::Bound => LedgerEntryKind::Bound,
            LedgerEntryKind::Issued => LedgerEntryKind::Issued,
            LedgerEntryKind::Endorsed { endorsement_id } => LedgerEntryKind::Endorsed {
                endorsement_id: *endorsement_id,
            },
            LedgerEntryKind::Cancelled { reason } => LedgerEntryKind::Cancelled {
                reason: reason.clone(),
            },
            LedgerEntryKind::Reinstated => LedgerEntryKind::Reinstated,
            LedgerEntryKind::Expired => LedgerEntryKind::Expired,
            LedgerEntryKind::PremiumAdjusted { delta_cents } => LedgerEntryKind::PremiumAdjusted {
                delta_cents: *delta_cents,
            },
        }
    }
}

#[derive(Debug, PartialEq, Eq)]
pub struct LedgerEntry {
    /// Entry identifier.
    pub id: UserId,
    pub policy_id: PolicyId,
    pub kind: LedgerEntryKind,
    /// When the event is effective in policy time.
    pub effective_at: i64,
    /// When the entry was written to the ledger.
    pub recorded_at: i64,
    /// Position of the entry among its policy's entries, from 1.
    pub sequence: u64,
    /// Source system, e.g. rust-pas, migration, correction.
    pub source: String,
}

impl Clone for LedgerEntry {
    fn clone(&self) -> (r: Self)
        ensures
            r == *self,
    {
        LedgerEntry {
            id: self.id,
            policy_id: self.policy_id,
            kind: self.kind.clone(),
            effective_at: self.effective_at,
            recorded_at: self.recorded_at,
            sequence: self.sequence,
            source: self.source.clone(),
        }
    }
}

impl Timed for LedgerEntry {
    open spec fn at(&self) -> int {
        self.effective_at as int
    }

    open spec fn seq_no(&self) -> int {
        self.sequence as int
    }

    fn effective_micros(&self) -> (r: i64) {
        self.effective_at
    }

    fn sequence_no(&self) -> (r: u64) {
        self.sequence
    }

    fn duplicate(&self) -> (r: Self) {
        self.clone()
    }
}

/// Errors of ledger operations.
#[derive(Debug, Clone, Copy, PartialEq, Eq, Structural)]
pub enum LedgerError {
    PolicyNotFound,
    SequenceOverflow,
}

/// Errors of the bi-temporal policy store.
#[derive(Debug, PartialEq, Eq)]
pub enum PolicyLedgerError {
    DatabaseError(String),
    PolicyNotFound,
    VersionConflict(String),
}

/// What a new policy version is written from. Dates are days since the
/// Unix epoch; the coverage is JSON text.
#[derive(Debug, PartialEq, Eq)]
pub struct PolicyVersionInput {
    pub policy_id: PolicyId,
    pub quote_id: QuoteId,
    pub customer_id: CustomerId,
    pub policy_number: String,
    pub line_of_business: String,
    pub state: String,
    pub premium_cents: i64,
    pub currency: String,
    pub coverage_json: String,
    pub effective_start: i64,
    pub effective_end: Option<i64>,
    pub source: String,
}

/// One version of a policy in the bi-temporal store: effective in
/// business time from `effective_start` (days), known to the system from
/// `sys_start` until `sys_end` (microseconds).
#[derive(Debug, PartialEq, Eq)]
pub struct PolicyVersion {
    pub version_id: u128,
    pub policy_id: PolicyId,
    pub quote_id: QuoteId,
    pub customer_id: CustomerId,
    pub policy_number: String,
    pub line_of_business: String,
    pub state: String,
    pub premium_cents: i64,
    pub currency: String,
    pub coverage_json: String,
    pub effective_start: i64,
    pub effective_end: Option<i64>,
    pub sys_start: i64,
    pub sys_end: Option<i64>,
    pub version_seq: i64,
    pub source: String,
}

impl Clone for PolicyVersion {
    fn clone(&self) -> (r: Self)
        ensures
            r == *self,
    {
        PolicyVersion {
            version_id: self.version_id,
            policy_id: self.policy_id,
            quote_id: self.quote_id,
            customer_id: self.customer_id,
            policy_number: self.policy_number.clone(),
            line_of_business: self.line_of_business.clone(),
            state: self.state.clone(),
            premium_cents: self.premium_cents,
            currency: self.currency.clone(),
            coverage_json: self.coverage_json.clone(),
            effective_start: self.effective_start,
            effective_end: self.effective_end,
            sys_start: self.sys_start,
            sys_end: self.sys_end,
            version_seq: self.version_seq,
            source: self.source.clone(),
        }
    }
}

/// The entries of every policy, keyed by the policy's identifier.
#[derive(Debug)]
pub struct PolicyLedger {
    by_policy: HashMap<u128, Vec<LedgerEntry>>,
}

impl View for PolicyLedger {
    type V = Map<u128, Seq<LedgerEntry>>;

    closed spec fn view(&self) -> Map<u128, Seq<LedgerEntry>> {
        self.by_policy@.map_values(|v: Vec<LedgerEntry>| v@)
    }
}

/// A policy's entries in append order (none if it has never had one).
pub open spec fn history(m: Map<u128, Seq<LedgerEntry>>, policy: u128) -> Seq<LedgerEntry> {
    if m.contains_key(policy) {
        m[policy]
    } else {
        seq![]
    }
}

/// Every entry is filed under its own policy, and the entry appended
/// i-th for a policy carries sequence number i + 1.
pub open spec fn ledger_consistent(m: Map<u128, Seq<LedgerEntry>>) -> bool {
    forall|p: u128, i: int|
        #![trigger m[p][i]]
        m.contains_key(p) && 0 <= i < m[p].len() ==> m[p][i].policy_id.0 == p && m[p][i].sequence
            == i + 1
}

impl PolicyLedger {
    pub open spec fn wf(&self) -> bool {
        ledger_consistent(self@)
    }

    pub fn new() -> (r: Self)
        ensures
            r@ == Map::<u128, Seq<LedgerEntry>>::empty(),
            r.wf(),
    {
        let r = PolicyLedger { by_policy: HashMap::new() };
        assert(r@ =~= Map::<u128, Seq<LedgerEntry>>::empty());
        r
    }

    /// Records an entry for `policy_id` and returns it. The entry gets the
    /// next sequence number of that policy and a fresh version-4 UUID as
    /// its identifier; nothing
    /// recorded for other policies changes.
    pub fn append(
        &mut self,
        policy_id: PolicyId,
        kind: LedgerEntryKind,
        effective_at: i64,
        source: &str,
    ) -> (e: LedgerEntry)
        requires
            old(self).wf(),
        ensures
            final(self).wf(),
            e.policy_id == policy_id,
            e.kind == kind,
            e.effective_at == effective_at,
            e.sequence == history(old(self)@, policy_id.0).len() + 1,
            e.source@ == source@,
            crate::ids::is_v4_uuid(e.id.0),
            final(self)@ == old(self)@.insert(
                policy_id.0,
                history(old(self)@, policy_id.0).push(e),
            ),
    {
        let key = policy_id.0;
        let ghost before = self@;
        let mut entries = match self.by_policy.remove(&key) {
            Some(v) => v,
            None => Vec::new(),
        };
        assert(entries@ == history(before, key));
        let n = entries.len();
        let sequence: u64 = if n == 0 {
            1
        } else {
            let last = entries[n - 1].sequence;
            assert(last == n);
            match last.checked_add(1) {
                Some(s) => s,
                None => u64::MAX,
            }
        };
        let entry = LedgerEntry {
            id: UserId::new(),
            policy_id,
            kind,
            effective_at,
            recorded_at: now_micros(),
            sequence,
            source: String::from_str(source),
        };
        let copy = entry.clone();
        entries.push(copy);
        assert(entries.len() == n + 1);
        assert(sequence == n + 1);
        self.by_policy.insert(key, entries);
        assert(self@ =~= before.insert(key, history(before, key).push(entry)));
        entry
    }

    /// A policy's entries ordered by effective instant, then sequence
    /// number: each recorded entry exactly once.
    pub fn entries(&self, policy_id: &PolicyId) -> (r: Vec<LedgerEntry>)
        ensures
            in_time_order(r@),
            r@.to_multiset() == history(self@, policy_id.0).to_multiset(),
    {
        match self.by_policy.get(&policy_id.0) {
            Some(v) => time_ordered(v, None),
            None => {
                let r: Vec<LedgerEntry> = Vec::new();
                assert(r@ =~= history(self@, policy_id.0));
                r
            },
        }
    }

    /// The entries of a policy effective at or before `as_of`, ordered by
    /// effective instant, then sequence number.
    pub fn as_of(&self, policy_id: &PolicyId, as_of: i64) -> (r: Vec<LedgerEntry>)
        ensures
            in_time_order(r@),
            r@.to_multiset() == kept(history(self@, policy_id.0), Some(as_of)).to_multiset(),
    {
        match self.by_policy.get(&policy_id.0) {
            Some(v) => time_ordered(v, Some(as_of)),
            None => {
                let r: Vec<LedgerEntry> = Vec::new();
                proof {
                    reveal(Seq::filter);
                }
                assert(r@ =~= kept(history(self@, policy_id.0), Some(as_of)));
                r
            },
        }
    }
}

// ── laws ───────────────────────────────────────────────────────────────────

/// Sequence numbers count a policy's appends: the entry appended i-th for
/// a policy carries sequence number i + 1, and is filed under that policy.
pub proof fn lemma_sequence_counts_appends(l: &PolicyLedger, p: u128, i: int)
    requires
        l.wf(),
        0 <= i < history(l@, p).len(),
    ensures
        history(l@, p)[i].sequence == i + 1,
        history(l@, p)[i].policy_id.0 == p,
{
    assert(l@.contains_key(p));
    assert(l@[p][i] == history(l@, p)[i]);
}

/// Appending for one policy leaves every other policy's history as it was.
pub proof fn lemma_append_leaves_other_policies(
    m: Map<u128, Seq<LedgerEntry>>,
    p: u128,
    entries: Seq<LedgerEntry>,
    q: u128,
)
    requires
        p != q,
    ensures
        history(m.insert(p, entries), q) == history(m, q),
{
}

proof fn lemma_history_distinct(l: &PolicyLedger, p: u128)
    requires
        l.wf(),
    ensures
        distinct_keys(history(l@, p)),
{
    let h = history(l@, p);
    assert forall|i: int, j: int| 0 <= i < j < h.len() implies !(#[trigger] h[i].at()
        == #[trigger] h[j].at() && h[i].seq_no() == h[j].seq_no()) by {
        lemma_sequence_counts_appends(l, p, i);
        lemma_sequence_counts_appends(l, p, j);
    }
}

/// Reads are determined by what was recorded: any two sequences meeting
/// the contract of `entries`, or of `as_of` with the same instant, for the
/// same ledger and policy are equal, because no two entries of a policy
/// share a sequence number.
pub proof fn lemma_reads_determined(
    l: &PolicyLedger,
    p: u128,
    cutoff: Option<i64>,
    a: Seq<LedgerEntry>,
    b: Seq<LedgerEntry>,
)
    requires
        l.wf(),
        in_time_order(a),
        in_time_order(b),
        a.to_multiset() == kept(history(l@, p), cutoff).to_multiset(),
        b.to_multiset() == kept(history(l@, p), cutoff).to_multiset(),
    ensures
        a == b,
{
    lemma_history_distinct(l, p);
    lemma_kept_distinct(history(l@, p), cutoff);
    lemma_time_order_unique(a, b, kept(history(l@, p), cutoff));
}

/// A version is appended to the policy it was written for: an input that
/// names another policy is refused as a version conflict.
pub fn check_append_target(policy_id: PolicyId, input: &PolicyVersionInput) -> (r: Result<
    (),
    PolicyLedgerError,
>)
    ensures
        r is Ok <==> input.policy_id == policy_id,
        r matches Err(e) ==> e == PolicyLedgerError::VersionConflict(e->VersionConflict_0),
        r matches Err(PolicyLedgerError::VersionConflict(m)) ==> m@ == "input policy_id "@
            + uuid_text(input.policy_id.0) + " does not match append policy_id "@ + uuid_text(
            policy_id.0,
        ),
{
    if input.policy_id.0 == policy_id.0 {
        return Ok(());
    }
    let mut m = String::from_str("input policy_id ");
    m.append(uuid_string(input.policy_id.0).as_str());
    m.append(" does not match append policy_id ");
    m.append(uuid_string(policy_id.0).as_str());
    Err(PolicyLedgerError::VersionConflict(m))
}

} // verus!
