//! Out-of-sequence endorsements: the policy changes an endorsement applies
//! to the version it is based on, and the premium journal it posts.
//!
//! The orchestration itself (locking the policy, voiding and re-sequencing
//! the versions effective after the endorsement, writing the new version)
//! runs against the database around these rules.

use vstd::prelude::*;
use crate::ids::{uuid_string, uuid_text, PolicyId};
use crate::policy_ledger::PolicyVersion;
use crate::premium_ledger::{
    line_amounts, net_is_zero, running_net, BatchInput, DecimalAmount, JournalEntryInput,
    JournalLineInput,
};

verus! {

/// The changes an endorsement makes; each present field replaces the
/// base version's. Dates are days since the Unix epoch; the coverage is
/// JSON text.
#[derive(Debug, PartialEq, Eq)]
pub struct PolicyChanges {
    pub new_state: Option<String>,
    pub new_premium_cents: Option<i64>,
    pub new_coverage_json: Option<String>,
    pub new_effective_end: Option<i64>,
}

impl Default for PolicyChanges {
    fn default() -> (r: Self)
        ensures
            r.new_state is None,
            r.new_premium_cents is None,
            r.new_coverage_json is None,
            r.new_effective_end is None,
    {
        PolicyChanges {
            new_state: None,
            new_premium_cents: None,
            new_coverage_json: None,
            new_effective_end: None,
        }
    }
}

#[derive(Debug, PartialEq, Eq)]
pub struct OosEndorsementInput {
    pub policy_id: PolicyId,
    /// Days since the Unix epoch.
    pub oos_effective_date: i64,
    pub changes: PolicyChanges,
    pub requested_by: String,
}

#[derive(Debug, Clone, Copy, PartialEq, Eq)]
pub struct OosResult {
    pub policy_id: PolicyId,
    pub oos_version_id: u128,
    pub blocking_versions_voided: usize,
    pub versions_resequenced: usize,
    pub journal_batch_id: Option<u128>,
    /// Microseconds since the Unix epoch.
    pub applied_at: i64,
}

#[derive(Debug, PartialEq, Eq)]
pub enum OosError {
    PolicyNotFound,
    NoBaseVersionFound,
    ConcurrentModification,
    DatabaseError(String),
    UnbalancedJournal(String),
}

/// `base` with each change that is present applied.
pub open spec fn changed_version(base: PolicyVersion, changes: PolicyChanges) -> PolicyVersion {
    PolicyVersion {
        state: match changes.new_state {
            Some(s) => s,
            None => base.state,
        },
        premium_cents: match changes.new_premium_cents {
            Some(p) => p,
            None => base.premium_cents,
        },
        coverage_json: match changes.new_coverage_json {
            Some(c) => c,
            None => base.coverage_json,
        },
        effective_end: match changes.new_effective_end {
            Some(e) => Some(e),
            None => base.effective_end,
        },
        ..base
    }
}

/// An endorsement changes exactly the fields it names: each change that
/// is present replaces the base's field, each that is absent leaves the
/// base's field, and every other field of the version (its identity,
/// policy number, line, currency, start, system times, sequence number and
/// source) is the base's.
pub proof fn lemma_changes_touch_only_what_they_name(base: PolicyVersion, changes: PolicyChanges)
    ensures
        ({
            let r = changed_version(base, changes);
            &&& changes.new_state matches Some(s) ==> r.state == s
            &&& changes.new_state is None ==> r.state == base.state
            &&& changes.new_premium_cents matches Some(c) ==> r.premium_cents == c
            &&& changes.new_premium_cents is None ==> r.premium_cents == base.premium_cents
            &&& changes.new_coverage_json matches Some(c) ==> r.coverage_json == c
            &&& changes.new_coverage_json is None ==> r.coverage_json == base.coverage_json
            &&& changes.new_effective_end matches Some(e) ==> r.effective_end == Some(e)
            &&& changes.new_effective_end is None ==> r.effective_end == base.effective_end
            &&& r.version_id == base.version_id
            &&& r.policy_id == base.policy_id
            &&& r.quote_id == base.quote_id
            &&& r.customer_id == base.customer_id
            &&& r.policy_number == base.policy_number
            &&& r.line_of_business == base.line_of_business
            &&& r.currency == base.currency
            &&& r.effective_start == base.effective_start
            &&& r.sys_start == base.sys_start
            &&& r.sys_end == base.sys_end
            &&& r.version_seq == base.version_seq
            &&& r.source == base.source
        }),
{
}

fn clone_text(s: &String) -> (r: String)
    ensures
        r == *s,
{
    s.clone()
}

/// The draft of the endorsed version: the base with the changes applied.
pub fn apply_policy_changes(base: &PolicyVersion, changes: &PolicyChanges) -> (r: PolicyVersion)
    ensures
        r == changed_version(*base, *changes),
{
    let mut updated = base.clone();
    if let Some(state) = &changes.new_state {
        updated.state = clone_text(state);
    }
    if let Some(premium_cents) = changes.new_premium_cents {
        updated.premium_cents = premium_cents;
    }
    if let Some(coverage) = &changes.new_coverage_json {
        updated.coverage_json = clone_text(coverage);
    }
    if let Some(effective_end) = changes.new_effective_end {
        updated.effective_end = Some(effective_end);
    }
    updated
}

/// The accounts a premium change posts to, debit first: an additional
/// premium debits receivables (1210) against unearned premium (2100); a
/// return debits unearned premium against the refund payable (2310).
pub open spec fn delta_accounts(delta_cents: int) -> (Seq<char>, Seq<char>) {
    if delta_cents > 0 {
        ("1210"@, "2100"@)
    } else {
        ("2100"@, "2310"@)
    }
}

/// Whether `line` posts `mantissa / 100` to `account` in `currency`.
pub open spec fn posts(line: JournalLineInput, account: Seq<char>, cents: int, currency: Seq<char>) -> bool {
    &&& line.account_no@ == account
    &&& line.amount.mantissa_of() == cents
    &&& line.amount.scale_of() == 2
    &&& line.currency@ == currency
}

/// Whether `b` is the balanced journal of a premium change of
/// `delta_cents`: one entry on `effective_date` whose two lines move the
/// change's magnitude from the credit account to the debit account.
pub open spec fn is_delta_journal(
    b: BatchInput,
    policy_id: PolicyId,
    delta_cents: int,
    effective_date: i64,
    currency: Seq<char>,
) -> bool {
    let magnitude = if delta_cents < 0 {
        -delta_cents
    } else {
        delta_cents
    };
    let (debit, credit) = delta_accounts(delta_cents);
    &&& b.policy_id == policy_id.0
    &&& b.event_type@ == "OOS_ENDORSEMENT_PREMIUM_DELTA"@
    &&& b.entries@.len() == 1
    &&& b.entries@[0].effective_date == effective_date
    &&& b.entries@[0].lines@.len() == 2
    &&& posts(b.entries@[0].lines@[0], debit, magnitude, currency)
    &&& posts(b.entries@[0].lines@[1], credit, -magnitude, currency)
}

/// The premium journal for a change of `delta_cents`: none for no change,
/// else one balanced entry (see `is_delta_journal`). The entry's lines
/// are summed and found balanced before it is returned.
pub fn build_premium_delta_journal(
    policy_id: PolicyId,
    delta_cents: i64,
    effective_date: i64,
    currency: &str,
) -> (r: Result<Option<BatchInput>, OosError>)
    requires
        delta_cents != i64::MIN,
    ensures
        delta_cents == 0 ==> r matches Ok(None),
        delta_cents != 0 ==> (r matches Ok(Some(b)) && is_delta_journal(
            b,
            policy_id,
            delta_cents as int,
            effective_date,
            currency@,
        )),
        r matches Ok(Some(b)) ==> net_is_zero(running_net(line_amounts(b.entries@[0].lines@))),
{
    if delta_cents == 0 {
        return Ok(None);
    }
    let magnitude: i64 = if delta_cents < 0 {
        -delta_cents
    } else {
        delta_cents
    };
    let amount = DecimalAmount::from_cents(magnitude);
    let negative = amount.negated();
    let (debit, credit) = if delta_cents > 0 {
        ("1210", "2100")
    } else {
        ("2100", "2310")
    };
    let mut lines: Vec<JournalLineInput> = Vec::new();
    lines.push(
        JournalLineInput {
            account_no: String::from_str(debit),
            amount,
            currency: String::from_str(currency),
        },
    );
    lines.push(
        JournalLineInput {
            account_no: String::from_str(credit),
            amount: negative,
            currency: String::from_str(currency),
        },
    );
    let first = DecimalAmount::zero().checked_plus(&amount);
    let net = match first {
        Some(f) => f.checked_plus(&negative),
        None => None,
    };
    let balanced = match net {
        Some(n) => n.mantissa() == 0,
        None => false,
    };
    if !balanced {
        return vstd::pervasive::unreached();
    }
    proof {
        let pair = seq![amount, negative];
        assert(line_amounts(lines@) =~= pair);
        assert(pair.drop_last() =~= seq![amount]);
        assert(seq![amount].drop_last() =~= Seq::<DecimalAmount>::empty());
        reveal_with_fuel(running_net, 3);
    }
    let mut entries: Vec<JournalEntryInput> = Vec::new();
    entries.push(JournalEntryInput { effective_date, lines });
    Ok(
        Some(
            BatchInput {
                policy_id: policy_id.0,
                event_type: String::from_str("OOS_ENDORSEMENT_PREMIUM_DELTA"),
                entries,
            },
        ),
    )
}

/// One policy-version row an endorsement writes: the content it is written
/// from, its business period, its sequence number and its source tag.
#[derive(Debug, PartialEq, Eq)]
pub struct VersionWrite {
    pub content: PolicyVersion,
    pub effective_start: i64,
    pub effective_end: Option<i64>,
    pub version_seq: i64,
    pub source: String,
}

/// Everything an endorsement writes, decided from what the store holds:
/// the version rows in the order they are inserted, and the premium
/// journal (none when the premium does not change).
#[derive(Debug)]
pub struct OosPlan {
    pub writes: Vec<VersionWrite>,
    pub journal: Option<BatchInput>,
}

/// A premium change's journal, read off its two lines: an increase
/// debits receivables 1210 and credits unearned premium 2100 by the
/// increase; a decrease debits unearned premium 2100 and credits the
/// refund payable 2310 by the decrease; the two lines are in cents (scale
/// two), in the policy's currency, and cancel out.
pub proof fn lemma_delta_journal_lines(
    b: BatchInput,
    policy_id: PolicyId,
    delta_cents: int,
    effective_date: i64,
    currency: Seq<char>,
)
    requires
        is_delta_journal(b, policy_id, delta_cents, effective_date, currency),
    ensures
        ({
            let debit = b.entries@[0].lines@[0];
            let credit = b.entries@[0].lines@[1];
            &&& delta_cents > 0 ==> debit.account_no@ == "1210"@ && credit.account_no@ == "2100"@
                && debit.amount.mantissa_of() == delta_cents
            &&& delta_cents < 0 ==> debit.account_no@ == "2100"@ && credit.account_no@ == "2310"@
                && debit.amount.mantissa_of() == -delta_cents
            &&& debit.amount.mantissa_of() >= 0
            &&& debit.amount.mantissa_of() + credit.amount.mantissa_of() == 0
            &&& debit.amount.scale_of() == 2 && credit.amount.scale_of() == 2
            &&& debit.currency@ == currency && credit.currency@ == currency
        }),
{
}

/// The rows an endorsement writes: first the endorsed version (the base
/// with the changes, effective from the endorsement date, next in
/// sequence), then every version it displaced, unchanged in business time,
/// re-written after it in their order.
pub open spec fn oos_writes(
    writes: Seq<VersionWrite>,
    draft: PolicyVersion,
    oos_effective_date: i64,
    blocking: Seq<PolicyVersion>,
    max_version_seq: int,
) -> bool {
    &&& writes.len() == blocking.len() + 1
    &&& writes[0].content == draft
    &&& writes[0].effective_start == oos_effective_date
    &&& writes[0].effective_end == draft.effective_end
    &&& writes[0].version_seq == max_version_seq + 1
    &&& writes[0].source@ == "oos-endorsement"@
    &&& forall|k: int|
        0 <= k < blocking.len() ==> {
            &&& (#[trigger] writes[k + 1]).content == blocking[k]
            &&& writes[k + 1].effective_start == blocking[k].effective_start
            &&& writes[k + 1].effective_end == blocking[k].effective_end
            &&& writes[k + 1].version_seq == max_version_seq + 2 + k
            &&& writes[k + 1].source@ == "oos-resequence"@
        }
}

/// Plans an out-of-sequence endorsement of `policy_id` effective on
/// `oos_effective_date`, given the version in force the day before
/// (`base`), the current versions effective after that date in order
/// (`blocking`) and the highest sequence number written so far. The
/// journal posts the premium change from the base to the endorsed version.
pub fn plan_oos_endorsement(
    policy_id: PolicyId,
    oos_effective_date: i64,
    changes: &PolicyChanges,
    base: &PolicyVersion,
    blocking: &Vec<PolicyVersion>,
    max_version_seq: i64,
) -> (r: OosPlan)
    requires
        0 <= max_version_seq,
        max_version_seq + 1 + blocking@.len() <= i64::MAX,
        i64::MIN < changed_version(*base, *changes).premium_cents - base.premium_cents <= i64::MAX,
    ensures
        oos_writes(
            r.writes@,
            changed_version(*base, *changes),
            oos_effective_date,
            blocking@,
            max_version_seq as int,
        ),
        (changed_version(*base, *changes).premium_cents == base.premium_cents) <==> r.journal is None,
        r.journal matches Some(b) ==> is_delta_journal(
            b,
            policy_id,
            changed_version(*base, *changes).premium_cents - base.premium_cents,
            oos_effective_date,
            changed_version(*base, *changes).currency@,
        ),
        r.journal matches Some(b) ==> net_is_zero(running_net(line_amounts(b.entries@[0].lines@))),
{
    let draft = apply_policy_changes(base, changes);
    let delta = draft.premium_cents - base.premium_cents;
    let journal = match build_premium_delta_journal(policy_id, delta, oos_effective_date, draft.currency.as_str()) {
        Ok(j) => j,
        Err(_) => vstd::pervasive::unreached(),
    };
    let mut writes: Vec<VersionWrite> = Vec::new();
    let end = draft.effective_end;
    writes.push(
        VersionWrite {
            content: draft,
            effective_start: oos_effective_date,
            effective_end: end,
            version_seq: max_version_seq + 1,
            source: String::from_str("oos-endorsement"),
        },
    );
    let mut k: usize = 0;
    while k < blocking.len()
        invariant
            k <= blocking.len(),
            0 <= max_version_seq,
            max_version_seq + 1 + blocking@.len() <= i64::MAX,
            writes@.len() == k + 1,
            writes@[0].content == changed_version(*base, *changes),
            writes@[0].effective_start == oos_effective_date,
            writes@[0].effective_end == changed_version(*base, *changes).effective_end,
            writes@[0].version_seq == max_version_seq + 1,
            writes@[0].source@ == "oos-endorsement"@,
            forall|j: int|
                0 <= j < k ==> {
                    &&& (#[trigger] writes@[j + 1]).content == blocking@[j]
                    &&& writes@[j + 1].effective_start == blocking@[j].effective_start
                    &&& writes@[j + 1].effective_end == blocking@[j].effective_end
                    &&& writes@[j + 1].version_seq == max_version_seq + 2 + j
                    &&& writes@[j + 1].source@ == "oos-resequence"@
                },
        decreases blocking.len() - k,
    {
        let v = &blocking[k];
        writes.push(
            VersionWrite {
                content: v.clone(),
                effective_start: v.effective_start,
                effective_end: v.effective_end,
                version_seq: max_version_seq + 2 + k as i64,
                source: String::from_str("oos-resequence"),
            },
        );
        k = k + 1;
    }
    OosPlan { writes, journal }
}

/// The version an endorsement is based on, from what the store holds: a
/// policy with no versions at all is `PolicyNotFound`; one with no version
/// in force the day before the endorsement is `NoBaseVersionFound`.
pub fn endorsement_base(policy_exists: bool, base: Option<PolicyVersion>) -> (r: Result<
    PolicyVersion,
    OosError,
>)
    ensures
        !policy_exists ==> r == Err::<PolicyVersion, OosError>(OosError::PolicyNotFound),
        policy_exists && base is None ==> r == Err::<PolicyVersion, OosError>(
            OosError::NoBaseVersionFound,
        ),
        policy_exists ==> (base matches Some(b) ==> r == Ok::<PolicyVersion, OosError>(b)),
{
    if !policy_exists {
        return Err(OosError::PolicyNotFound);
    }
    match base {
        Some(b) => Ok(b),
        None => Err(OosError::NoBaseVersionFound),
    }
}

/// What an applied endorsement reports, given how many version rows its
/// plan wrote and whether the plan had a journal: every row after the
/// endorsed one is a displaced version, voided and re-sequenced, and the
/// journal's batch is reported exactly when there was a journal to post.
pub fn oos_result(
    policy_id: PolicyId,
    rows_written: usize,
    journal_planned: bool,
    oos_version_id: u128,
    journal_batch_id: Option<u128>,
    applied_at: i64,
) -> (r: OosResult)
    requires
        rows_written >= 1,
        journal_batch_id is Some <==> journal_planned,
    ensures
        r.policy_id == policy_id,
        r.oos_version_id == oos_version_id,
        r.blocking_versions_voided == rows_written - 1,
        r.versions_resequenced == rows_written - 1,
        r.journal_batch_id == journal_batch_id,
        r.applied_at == applied_at,
{
    let displaced = rows_written - 1;
    OosResult {
        policy_id,
        oos_version_id,
        blocking_versions_voided: displaced,
        versions_resequenced: displaced,
        journal_batch_id,
        applied_at,
    }
}

/// An endorsement reports what it did: as many versions voided as were
/// re-sequenced, both the number of versions it displaced, and a journal
/// batch exactly when the endorsed premium differs from the base's.
pub proof fn lemma_endorsement_reports_what_it_wrote(
    plan: OosPlan,
    r: OosResult,
    base: PolicyVersion,
    changes: PolicyChanges,
    oos_effective_date: i64,
    blocking: Seq<PolicyVersion>,
    max_version_seq: int,
)
    requires
        oos_writes(
            plan.writes@,
            changed_version(base, changes),
            oos_effective_date,
            blocking,
            max_version_seq,
        ),
        (changed_version(base, changes).premium_cents == base.premium_cents) <==> plan.journal is None,
        r.blocking_versions_voided == plan.writes.len() - 1,
        r.versions_resequenced == plan.writes.len() - 1,
        r.journal_batch_id is Some <==> plan.journal is Some,
    ensures
        r.blocking_versions_voided == blocking.len(),
        r.versions_resequenced == blocking.len(),
        r.journal_batch_id is Some <==> changed_version(base, changes).premium_cents
            != base.premium_cents,
{
}

/// An endorsement never reuses a sequence number: the rows it writes carry
/// increasing numbers, all above every number written before it.
pub proof fn lemma_endorsement_sequence_numbers_are_fresh(
    writes: Seq<VersionWrite>,
    draft: PolicyVersion,
    oos_effective_date: i64,
    blocking: Seq<PolicyVersion>,
    max_version_seq: int,
)
    requires
        oos_writes(writes, draft, oos_effective_date, blocking, max_version_seq),
    ensures
        forall|i: int| 0 <= i < writes.len() ==> #[trigger] writes[i].version_seq == max_version_seq + 1 + i,
        forall|i: int, j: int|
            0 <= i < j < writes.len() ==> (#[trigger] writes[i]).version_seq < (#[trigger] writes[j]).version_seq,
        forall|i: int| 0 <= i < writes.len() ==> #[trigger] writes[i].version_seq > max_version_seq,
{
    assert forall|i: int| 0 <= i < writes.len() implies #[trigger] writes[i].version_seq == max_version_seq
        + 1 + i by {
        if i > 0 {
            let k = i - 1;
            assert(writes[k + 1].version_seq == max_version_seq + 2 + k);
        }
    }
}

/// How long an endorsement's policy lock lasts before Redis lets it lapse,
/// in milliseconds.
pub const OOS_LOCK_TTL_MS: u64 = 30_000;

/// The Redis key of the lock an endorsement holds: `oos:policy:{policy id}`.
pub fn oos_lock_key(policy_id: PolicyId) -> (r: String)
    ensures
        r@ == "oos:policy:"@ + uuid_text(policy_id.0),
{
    let mut s = String::from_str("oos:policy:");
    s.append(uuid_string(policy_id.0).as_str());
    s
}

} // verus!
