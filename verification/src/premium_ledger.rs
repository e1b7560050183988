//! In-memory, append-only premium ledger: written premium, adjustments,
//! refunds and charges per policy, in cents.
//!
//! Entries are filed per policy in the order they are appended; each gets
//! the next sequence number of its policy, starting at 1. Reads return a
//! policy's entries ordered by effective instant, then sequence number.
//! Instants are microseconds since the Unix epoch.

use std::collections::HashMap;
use vstd::prelude::*;
use crate::ids::{random_uuid, PolicyId};
use crate::pas_domain::EndorsementId;
use crate::timeline::{
    distinct_keys, in_time_order, kept, lemma_kept_distinct, lemma_time_order_unique, now_micros,
    time_ordered, Timed,
};

verus! {

broadcast use vstd::std_specs::hash::group_hash_axioms;

#[derive(Debug, Clone, Copy, PartialEq, Eq, Structural)]
pub enum PremiumEntryKind {
    WrittenPremium,
    PremiumAdjustment { delta_cents: i64 },
    EndorsementAdjustment { endorsement_id: EndorsementId, delta_cents: i64 },
    CancellationRefund { amount_cents: i64 },
    ReinstatementCharge { amount_cents: i64 },
    EarnedPremiumSnapshot { amount_cents: i64 },
}

#[derive(Debug, PartialEq, Eq)]
pub struct PremiumEntry {
    /// Entry identifier (a random UUID).
    pub id: u128,
    pub policy_id: PolicyId,
    pub kind: PremiumEntryKind,
    /// When the event is effective in policy time.
    pub effective_at: i64,
    /// When the entry was written to the ledger.
    pub recorded_at: i64,
    /// Position of the entry among its policy's entries, from 1.
    pub sequence: u64,
    /// Source system, e.g. rust-pas, pricing, migration.
    pub source: String,
}

impl Clone for PremiumEntry {
    fn clone(&self) -> (r: Self)
        ensures
            r == *self,
    {
        PremiumEntry {
            id: self.id,
            policy_id: self.policy_id,
            kind: self.kind,
            effective_at: self.effective_at,
            recorded_at: self.recorded_at,
            sequence: self.sequence,
            source: self.source.clone(),
        }
    }
}

impl Timed for PremiumEntry {
    open spec fn at(&self) -> int {
        self.effective_at as int
    }

    open spec fn seq_no(&self) -> int {
        self.sequence as int
    }

    fn effective_micros(&self) -> (r: i64) {
        self.effective_at
    }

    fn sequence_no(&self) -> (r: u64) {
        self.sequence
    }

    fn duplicate(&self) -> (r: Self) {
        self.clone()
    }
}

/// Errors of premium ledger operations.
#[derive(Debug, Clone, Copy, PartialEq, Eq, Structural)]
pub enum PremiumLedgerError {
    PolicyNotFound,
    SequenceOverflow,
}

/// The entries of every policy, keyed by the policy's identifier.
#[derive(Debug)]
pub struct PremiumLedger {
    by_policy: HashMap<u128, Vec<PremiumEntry>>,
}

impl View for PremiumLedger {
    type V = Map<u128, Seq<PremiumEntry>>;

    closed spec fn view(&self) -> Map<u128, Seq<PremiumEntry>> {
        self.by_policy@.map_values(|v: Vec<PremiumEntry>| v@)
    }
}

/// A policy's entries in append order (none if it has never had one).
pub open spec fn history(m: Map<u128, Seq<PremiumEntry>>, policy: u128) -> Seq<PremiumEntry> {
    if m.contains_key(policy) {
        m[policy]
    } else {
        seq![]
    }
}

/// Every entry is filed under its own policy, and the entry appended
/// i-th for a policy carries sequence number i + 1.
pub open spec fn ledger_consistent(m: Map<u128, Seq<PremiumEntry>>) -> bool {
    forall|p: u128, i: int|
        #![trigger m[p][i]]
        m.contains_key(p) && 0 <= i < m[p].len() ==> m[p][i].policy_id.0 == p && m[p][i].sequence
            == i + 1
}

impl PremiumLedger {
    pub open spec fn wf(&self) -> bool {
        ledger_consistent(self@)
    }

    pub fn new() -> (r: Self)
        ensures
            r@ == Map::<u128, Seq<PremiumEntry>>::empty(),
            r.wf(),
    {
        let r = PremiumLedger { by_policy: HashMap::new() };
        assert(r@ =~= Map::<u128, Seq<PremiumEntry>>::empty());
        r
    }

    /// Records an entry for `policy_id` and returns it. The entry gets the
    /// next sequence number of that policy and a fresh version-4 UUID as
    /// its identifier; nothing
    /// recorded for other policies changes.
    pub fn append(
        &mut self,
        policy_id: PolicyId,
        kind: PremiumEntryKind,
        effective_at: i64,
        source: &str,
    ) -> (e: PremiumEntry)
        requires
            old(self).wf(),
        ensures
            final(self).wf(),
            e.policy_id == policy_id,
            e.kind == kind,
            e.effective_at == effective_at,
            e.sequence == history(old(self)@, policy_id.0).len() + 1,
            e.source@ == source@,
            crate::ids::is_v4_uuid(e.id),
            final(self)@ == old(self)@.insert(
                policy_id.0,
                history(old(self)@, policy_id.0).push(e),
            ),
    {
        let key = policy_id.0;
        let ghost before = self@;
        let mut entries = match self.by_policy.remove(&key) {
            Some(v) => v,
            None => Vec::new(),
        };
        assert(entries@ == history(before, key));
        let n = entries.len();
        let sequence: u64 = if n == 0 {
            1
        } else {
            let last = entries[n - 1].sequence;
            assert(last == n);
            match last.checked_add(1) {
                Some(s) => s,
                None => u64::MAX,
            }
        };
        let entry = PremiumEntry {
            id: random_uuid(),
            policy_id,
            kind,
            effective_at,
            recorded_at: now_micros(),
            sequence,
            source: String::from_str(source),
        };
        let copy = entry.clone();
        entries.push(copy);
        assert(entries.len() == n + 1);
        assert(sequence == n + 1);
        self.by_policy.insert(key, entries);
        assert(self@ =~= before.insert(key, history(before, key).push(entry)));
        entry
    }

    /// A policy's entries ordered by effective instant, then sequence
    /// number: each recorded entry exactly once.
    pub fn entries(&self, policy_id: &PolicyId) -> (r: Vec<PremiumEntry>)
        ensures
            in_time_order(r@),
            r@.to_multiset() == history(self@, policy_id.0).to_multiset(),
    {
        match self.by_policy.get(&policy_id.0) {
            Some(v) => time_ordered(v, None),
            None => {
                let r: Vec<PremiumEntry> = Vec::new();
                assert(r@ =~= history(self@, policy_id.0));
                r
            },
        }
    }

    /// The entries of a policy effective at or before `as_of`, ordered by
    /// effective instant, then sequence number.
    pub fn as_of(&self, policy_id: &PolicyId, as_of: i64) -> (r: Vec<PremiumEntry>)
        ensures
            in_time_order(r@),
            r@.to_multiset() == kept(history(self@, policy_id.0), Some(as_of)).to_multiset(),
    {
        match self.by_policy.get(&policy_id.0) {
            Some(v) => time_ordered(v, Some(as_of)),
            None => {
                let r: Vec<PremiumEntry> = Vec::new();
                proof {
                    reveal(Seq::filter);
                }
                assert(r@ =~= kept(history(self@, policy_id.0), Some(as_of)));
                r
            },
        }
    }
}

// ── double-entry journal input ────────────────────────────────────────────

/// Largest magnitude of a decimal mantissa (96 bits).
pub open spec fn max_mantissa() -> int {
    0xFFFF_FFFF_FFFF_FFFF_FFFF_FFFF
}

/// A decimal amount as `rust_decimal::Decimal` holds it: the value
/// `mantissa / 10^scale`, with a mantissa of at most 96 bits and a scale
/// of at most 28.
#[derive(Debug, Clone, Copy)]
pub struct DecimalAmount {
    mantissa: i128,
    scale: u32,
}

impl DecimalAmount {
    #[verifier::type_invariant]
    spec fn representable(self) -> bool {
        self.scale <= 28 && -max_mantissa() <= self.mantissa <= max_mantissa()
    }

    pub closed spec fn mantissa_of(self) -> i128 {
        self.mantissa
    }

    pub closed spec fn scale_of(self) -> u32 {
        self.scale
    }

    /// The amount `mantissa / 10^scale`, when a decimal can hold it.
    pub fn new(mantissa: i128, scale: u32) -> (r: Option<Self>)
        ensures
            r is Some <==> (scale <= 28 && -max_mantissa() <= mantissa <= max_mantissa()),
            r matches Some(d) ==> d.mantissa_of() == mantissa && d.scale_of() == scale,
    {
        if scale <= 28 && -0xFFFF_FFFF_FFFF_FFFF_FFFF_FFFF <= mantissa && mantissa
            <= 0xFFFF_FFFF_FFFF_FFFF_FFFF_FFFF {
            Some(DecimalAmount { mantissa, scale })
        } else {
            None
        }
    }

    /// An amount in cents: `cents / 100`.
    pub fn from_cents(cents: i64) -> (r: Self)
        ensures
            r.mantissa_of() == cents,
            r.scale_of() == 2,
    {
        DecimalAmount { mantissa: cents as i128, scale: 2 }
    }

    pub fn zero() -> (r: Self)
        ensures
            r.mantissa_of() == 0,
            r.scale_of() == 0,
    {
        DecimalAmount { mantissa: 0, scale: 0 }
    }

    pub fn mantissa(&self) -> (r: i128)
        ensures
            r == self.mantissa_of(),
    {
        self.mantissa
    }

    pub fn scale(&self) -> (r: u32)
        ensures
            r == self.scale_of(),
    {
        self.scale
    }

    /// `self + other` as `rust_decimal` adds them; `None` on overflow.
    /// Adding to zero gives the other amount unchanged, and adding an
    /// amount's negation gives zero.
    pub fn checked_plus(&self, other: &Self) -> (r: Option<Self>)
        ensures
            (match r {
                Some(s) => decimal_checked_add(
                    self.mantissa_of(),
                    self.scale_of(),
                    other.mantissa_of(),
                    other.scale_of(),
                ) == Some((s.mantissa_of(), s.scale_of())),
                None => decimal_checked_add(
                    self.mantissa_of(),
                    self.scale_of(),
                    other.mantissa_of(),
                    other.scale_of(),
                ) is None,
            }),
            self.mantissa_of() == 0 ==> (r matches Some(s) && s.mantissa_of()
                == other.mantissa_of() && s.scale_of() == other.scale_of()),
            self.scale_of() == other.scale_of() && self.mantissa_of() == -other.mantissa_of()
                ==> is_zero_amount(r),
    {
        checked_add_amounts(*self, *other)
    }

    /// The same magnitude with the opposite sign.
    pub fn negated(&self) -> (r: Self)
        ensures
            r.mantissa_of() == -self.mantissa_of(),
            r.scale_of() == self.scale_of(),
    {
        proof {
            use_type_invariant(self);
        }
        DecimalAmount { mantissa: -self.mantissa, scale: self.scale }
    }
}

/// Whether an optional amount is present and zero.
pub open spec fn is_zero_amount(r: Option<DecimalAmount>) -> bool {
    match r {
        Some(s) => s.mantissa_of() == 0,
        None => false,
    }
}

/// What `rust_decimal::Decimal::checked_add` returns for the decimals
/// `a_mantissa / 10^a_scale` and `b_mantissa / 10^b_scale`, as mantissa and
/// scale; `None` when the sum overflows.
pub uninterp spec fn decimal_checked_add(
    a_mantissa: i128,
    a_scale: u32,
    b_mantissa: i128,
    b_scale: u32,
) -> Option<(i128, u32)>;

/// `rust_decimal::Decimal::checked_add` on two amounts. Trusted: the result
/// is the named sum; adding to a zero left operand returns the right one as
/// it is, and adding an amount's negation (same scale) gives a zero.
#[verifier::external_body]
fn checked_add_amounts(a: DecimalAmount, b: DecimalAmount) -> (r: Option<DecimalAmount>)
    ensures
        (match r {
            Some(s) => decimal_checked_add(a.mantissa, a.scale, b.mantissa, b.scale) == Some(
                (s.mantissa, s.scale),
            ),
            None => decimal_checked_add(a.mantissa, a.scale, b.mantissa, b.scale) is None,
        }),
        a.mantissa == 0 ==> r == Some(b),
        a.scale == b.scale && a.mantissa == -b.mantissa ==> is_zero_amount(r),
{
    let x = rust_decimal::Decimal::from_i128_with_scale(a.mantissa, a.scale);
    let y = rust_decimal::Decimal::from_i128_with_scale(b.mantissa, b.scale);
    match x.checked_add(y) {
        Some(sum) => Some(DecimalAmount { mantissa: sum.mantissa(), scale: sum.scale() }),
        None => None,
    }
}

/// The running total of some amounts, added left to right from zero as
/// `rust_decimal` adds them; `None` once a sum overflows.
pub open spec fn running_net(amounts: Seq<DecimalAmount>) -> Option<(i128, u32)>
    decreases amounts.len(),
{
    if amounts.len() == 0 {
        Some((0, 0))
    } else {
        match running_net(amounts.drop_last()) {
            None => None,
            Some((m, s)) => decimal_checked_add(
                m,
                s,
                amounts.last().mantissa_of(),
                amounts.last().scale_of(),
            ),
        }
    }
}

/// Once a running total overflows it stays undefined.
proof fn lemma_running_net_stays_none(amounts: Seq<DecimalAmount>, k: int)
    requires
        0 <= k <= amounts.len(),
        running_net(amounts.subrange(0, k)) is None,
    ensures
        running_net(amounts) is None,
    decreases amounts.len() - k,
{
    if k < amounts.len() {
        let next = amounts.subrange(0, k + 1);
        assert(next.drop_last() =~= amounts.subrange(0, k));
        lemma_running_net_stays_none(amounts, k + 1);
    } else {
        assert(amounts.subrange(0, k) =~= amounts);
    }
}

#[derive(Debug)]
pub struct JournalLineInput {
    pub account_no: String,
    pub amount: DecimalAmount,
    pub currency: String,
}

#[derive(Debug)]
pub struct JournalEntryInput {
    /// Days since the Unix epoch.
    pub effective_date: i64,
    pub lines: Vec<JournalLineInput>,
}

/// A batch of journal entries for one policy event.
#[derive(Debug)]
pub struct BatchInput {
    pub policy_id: u128,
    pub event_type: String,
    pub entries: Vec<JournalEntryInput>,
}

#[derive(Debug, Clone, Copy)]
pub struct BatchResult {
    pub batch_id: u128,
    pub entry_count: usize,
    pub total_lines: usize,
}

#[derive(Debug)]
pub struct BatchSummary {
    pub batch_id: u128,
    pub policy_id: u128,
    pub event_type: String,
    /// Microseconds since the Unix epoch.
    pub created_at: i64,
    pub entry_count: usize,
    pub line_count: usize,
}

#[derive(Debug)]
pub struct AccountBalance {
    pub account_no: String,
    /// Days since the Unix epoch.
    pub as_of_date: i64,
    pub balance: DecimalAmount,
}

#[derive(Debug)]
pub enum SubledgerError {
    DatabaseError(String),
    UnbalancedEntry { entry_index: usize, net: DecimalAmount },
    AccountNotFound(String),
    AccountNotLeaf(String),
}

/// Whether a computed net is a zero amount.
pub open spec fn net_is_zero(net: Option<(i128, u32)>) -> bool {
    match net {
        Some((m, _)) => m == 0,
        None => false,
    }
}

/// The amounts of some journal lines, in order.
pub open spec fn line_amounts(lines: Seq<JournalLineInput>) -> Seq<DecimalAmount> {
    lines.map_values(|l: JournalLineInput| l.amount)
}

/// The net of some journal lines, summed as `rust_decimal` sums them;
/// `None` when a partial sum overflows.
pub fn journal_net(lines: &Vec<JournalLineInput>) -> (r: Option<DecimalAmount>)
    ensures
        (match r {
            Some(n) => running_net(line_amounts(lines@)) == Some((n.mantissa_of(), n.scale_of())),
            None => running_net(line_amounts(lines@)) is None,
        }),
{
    let ghost amounts = line_amounts(lines@);
    let mut acc = DecimalAmount::zero();
    let mut i: usize = 0;
    assert(amounts.subrange(0, 0) =~= Seq::<DecimalAmount>::empty());
    while i < lines.len()
        invariant
            i <= lines.len(),
            amounts == line_amounts(lines@),
            running_net(amounts.subrange(0, i as int)) == Some(
                (acc.mantissa_of(), acc.scale_of()),
            ),
        decreases lines.len() - i,
    {
        let ghost cur = amounts.subrange(0, i + 1);
        assert(cur.drop_last() =~= amounts.subrange(0, i as int));
        assert(cur.last() == lines@[i as int].amount);
        match acc.checked_plus(&lines[i].amount) {
            Some(s) => {
                acc = s;
            },
            None => {
                proof {
                    lemma_running_net_stays_none(amounts, i + 1);
                }
                return None;
            },
        }
        i = i + 1;
    }
    assert(amounts.subrange(0, amounts.len() as int) =~= amounts);
    Some(acc)
}

/// The verdict on an entry whose lines net to `net`: balanced when the
/// net is zero, else `UnbalancedEntry` with the entry's index and net.
pub fn balance_verdict(entry_index: usize, net: DecimalAmount) -> (r: Result<(), SubledgerError>)
    ensures
        net.mantissa_of() == 0 <==> r is Ok,
        r matches Err(e) ==> e matches SubledgerError::UnbalancedEntry { entry_index: i, net: n }
            && i == entry_index && n == net,
{
    if net.mantissa() != 0 {
        Err(SubledgerError::UnbalancedEntry { entry_index, net })
    } else {
        Ok(())
    }
}

/// Checks that an entry's lines net to zero. Defined where the lines can
/// be summed without overflow (where summing them would otherwise abort).
pub fn validate_entry_balance(entry_index: usize, entry: &JournalEntryInput) -> (r: Result<
    (),
    SubledgerError,
>)
    requires
        running_net(line_amounts(entry.lines@)) is Some,
    ensures
        (net_is_zero(running_net(line_amounts(entry.lines@)))) <==> r is Ok,
        r matches Err(e) ==> e matches SubledgerError::UnbalancedEntry { entry_index: i, net: n }
            && i == entry_index && running_net(line_amounts(entry.lines@)) == Some(
            (n.mantissa_of(), n.scale_of()),
        ),
{
    match journal_net(&entry.lines) {
        Some(net) => balance_verdict(entry_index, net),
        None => vstd::pervasive::unreached(),
    }
}

/// Like `validate_entry_balance`, for any entry: `None` when the lines'
/// sum overflows.
pub fn check_entry_balance(entry_index: usize, entry: &JournalEntryInput) -> (r: Option<
    Result<(), SubledgerError>,
>)
    ensures
        r is None <==> running_net(line_amounts(entry.lines@)) is None,
        r matches Some(v) ==> ((net_is_zero(running_net(line_amounts(entry.lines@)))) <==> v is Ok),
        r matches Some(Err(e)) ==> e matches SubledgerError::UnbalancedEntry {
            entry_index: i,
            net: n,
        } && i == entry_index && running_net(line_amounts(entry.lines@)) == Some(
            (n.mantissa_of(), n.scale_of()),
        ),
{
    match journal_net(&entry.lines) {
        Some(_) => Some(validate_entry_balance(entry_index, entry)),
        None => None,
    }
}

/// What an entry's lines net to; `None` when summing them overflows.
pub open spec fn entry_net(e: JournalEntryInput) -> Option<(i128, u32)> {
    running_net(line_amounts(e.lines@))
}

/// Checks a batch's entries in order and stops at the first that does not
/// net to zero: `Some(Err(UnbalancedEntry))` with its index and net, or
/// `None` where summing its lines overflows (where summing them would
/// otherwise abort). `Some(Ok(()))` when every entry balances.
pub fn check_batch_balance(entries: &Vec<JournalEntryInput>) -> (r: Option<
    Result<(), SubledgerError>,
>)
    ensures
        (r matches Some(Ok(_))) <==> (forall|i: int|
            0 <= i < entries@.len() ==> net_is_zero(#[trigger] entry_net(entries@[i]))),
        r is None ==> exists|i: int|
            0 <= i < entries@.len() && #[trigger] entry_net(entries@[i]) is None && (forall|j: int|
                0 <= j < i ==> net_is_zero(#[trigger] entry_net(entries@[j]))),
        r matches Some(Err(e)) ==> exists|i: int|
            0 <= i < entries@.len() && (forall|j: int|
                0 <= j < i ==> net_is_zero(#[trigger] entry_net(entries@[j]))) && (e matches SubledgerError::UnbalancedEntry {
                entry_index: k,
                net: n,
            } && k == i && #[trigger] entry_net(entries@[i]) == Some(
                (n.mantissa_of(), n.scale_of()),
            ) && n.mantissa_of() != 0),
{
    let mut i: usize = 0;
    while i < entries.len()
        invariant
            i <= entries@.len(),
            forall|j: int| 0 <= j < i ==> net_is_zero(#[trigger] entry_net(entries@[j])),
        decreases entries@.len() - i,
    {
        let entry = &entries[i];
        match check_entry_balance(i, entry) {
            None => {
                assert(entry_net(entries@[i as int]) is None);
                return None;
            },
            Some(Err(e)) => {
                assert(entry_net(entries@[i as int]) is Some);
                assert(!net_is_zero(entry_net(entries@[i as int])));
                return Some(Err(e));
            },
            Some(Ok(())) => {},
        }
        i = i + 1;
    }
    Some(Ok(()))
}

// ── laws ───────────────────────────────────────────────────────────────────

/// Sequence numbers count a policy's appends: the entry appended i-th for
/// a policy carries sequence number i + 1, and is filed under that policy.
pub proof fn lemma_sequence_counts_appends(l: &PremiumLedger, p: u128, i: int)
    requires
        l.wf(),
        0 <= i < history(l@, p).len(),
    ensures
        history(l@, p)[i].sequence == i + 1,
        history(l@, p)[i].policy_id.0 == p,
{
    assert(l@.contains_key(p));
    assert(l@[p][i] == history(l@, p)[i]);
}

/// Appending for one policy leaves every other policy's history as it was.
pub proof fn lemma_append_leaves_other_policies(
    m: Map<u128, Seq<PremiumEntry>>,
    p: u128,
    entries: Seq<PremiumEntry>,
    q: u128,
)
    requires
        p != q,
    ensures
        history(m.insert(p, entries), q) == history(m, q),
{
}

proof fn lemma_history_distinct(l: &PremiumLedger, p: u128)
    requires
        l.wf(),
    ensures
        distinct_keys(history(l@, p)),
{
    let h = history(l@, p);
    assert forall|i: int, j: int| 0 <= i < j < h.len() implies !(#[trigger] h[i].at()
        == #[trigger] h[j].at() && h[i].seq_no() == h[j].seq_no()) by {
        lemma_sequence_counts_appends(l, p, i);
        lemma_sequence_counts_appends(l, p, j);
    }
}

/// Reads are determined by what was recorded: any two sequences meeting
/// the contract of `entries`, or of `as_of` with the same instant, for the
/// same ledger and policy are equal, because no two entries of a policy
/// share a sequence number.
pub proof fn lemma_reads_determined(
    l: &PremiumLedger,
    p: u128,
    cutoff: Option<i64>,
    a: Seq<PremiumEntry>,
    b: Seq<PremiumEntry>,
)
    requires
        l.wf(),
        in_time_order(a),
        in_time_order(b),
        a.to_multiset() == kept(history(l@, p), cutoff).to_multiset(),
        b.to_multiset() == kept(history(l@, p), cutoff).to_multiset(),
    ensures
        a == b,
{
    lemma_history_distinct(l, p);
    lemma_kept_distinct(history(l@, p), cutoff);
    lemma_time_order_unique(a, b, kept(history(l@, p), cutoff));
}

} // verus!
