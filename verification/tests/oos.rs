use sagepas::ids::{CustomerId, PolicyId, QuoteId};
use sagepas::oos::{
    apply_policy_changes, build_premium_delta_journal, endorsement_base, oos_result, plan_oos_endorsement,
    OosError, OosResult, PolicyChanges,
};
use sagepas::policy_ledger::{check_append_target, PolicyLedgerError, PolicyVersionInput};
use sagepas::policy_ledger::PolicyVersion;
use rust_decimal::Decimal;

fn date(year: i32, month: u32, day: u32) -> i64 {
    let d = chrono::NaiveDate::from_ymd_opt(year, month, day).unwrap();
    (d - chrono::NaiveDate::from_ymd_opt(1970, 1, 1).unwrap()).num_days()
}

fn base_version() -> PolicyVersion {
    PolicyVersion {
        version_id: uuid::Uuid::new_v4().as_u128(),
        policy_id: PolicyId::new(),
        quote_id: QuoteId::new(),
        customer_id: CustomerId::new(),
        policy_number: "POL-1".to_string(),
        line_of_business: "homeowners".to_string(),
        state: "bound".to_string(),
        premium_cents: 120_000,
        currency: "USD".to_string(),
        coverage_json: "{\"limit\":100000}".to_string(),
        effective_start: date(2026, 1, 1),
        effective_end: None,
        sys_start: chrono::Utc::now().timestamp_micros(),
        sys_end: None,
        version_seq: 1,
        source: "test".to_string(),
    }
}

fn amount(a: &sagepas::premium_ledger::DecimalAmount) -> Decimal {
    Decimal::from_i128_with_scale(a.mantissa(), a.scale())
}

fn journal_net(batch: &sagepas::premium_ledger::BatchInput) -> Decimal {
    batch.entries[0]
        .lines
        .iter()
        .fold(Decimal::ZERO, |acc, line| acc + amount(&line.amount))
}

#[test]
fn test_no_blocking_versions() {
    let result = OosResult {
        policy_id: PolicyId::new(),
        oos_version_id: uuid::Uuid::new_v4().as_u128(),
        blocking_versions_voided: 0,
        versions_resequenced: 0,
        journal_batch_id: None,
        applied_at: chrono::Utc::now().timestamp_micros(),
    };
    assert_eq!(result.blocking_versions_voided, 0);
    assert_eq!(result.versions_resequenced, 0);
}

#[test]
fn test_policy_changes_applied() {
    let base = base_version();
    let changes = PolicyChanges {
        new_state: Some("endorsed".to_string()),
        new_premium_cents: Some(135_000),
        new_coverage_json: Some("{\"limit\":250000}".to_string()),
        new_effective_end: Some(date(2026, 12, 31)),
    };

    let updated = apply_policy_changes(&base, &changes);

    assert_eq!(updated.state, "endorsed");
    assert_eq!(updated.premium_cents, 135_000);
    let coverage: serde_json::Value = serde_json::from_str(&updated.coverage_json).unwrap();
    let expected: serde_json::Value = serde_json::from_str("{\"limit\": 250000}").unwrap();
    assert_eq!(coverage, expected);
    assert_eq!(updated.effective_end, Some(date(2026, 12, 31)));
    assert_eq!(updated.policy_id, base.policy_id);
}

#[test]
fn test_premium_delta_additional() {
    let policy_id = PolicyId::new();
    let batch = build_premium_delta_journal(policy_id, 15_000, date(2026, 2, 1), "USD")
        .unwrap()
        .unwrap();

    assert_eq!(batch.policy_id, policy_id.0);
    assert_eq!(batch.event_type, "OOS_ENDORSEMENT_PREMIUM_DELTA");
    assert_eq!(batch.entries[0].lines[0].account_no, "1210");
    assert_eq!(amount(&batch.entries[0].lines[0].amount), Decimal::from(150));
    assert_eq!(batch.entries[0].lines[1].account_no, "2100");
    assert_eq!(amount(&batch.entries[0].lines[1].amount), Decimal::from(-150));
    assert_eq!(journal_net(&batch), Decimal::ZERO);
}

#[test]
fn test_premium_delta_return() {
    let policy_id = PolicyId::new();
    let batch = build_premium_delta_journal(policy_id, -25_000, date(2026, 2, 1), "USD")
        .unwrap()
        .unwrap();

    assert_eq!(batch.policy_id, policy_id.0);
    assert_eq!(batch.entries[0].lines[0].account_no, "2100");
    assert_eq!(amount(&batch.entries[0].lines[0].amount), Decimal::from(250));
    assert_eq!(batch.entries[0].lines[1].account_no, "2310");
    assert_eq!(amount(&batch.entries[0].lines[1].amount), Decimal::from(-250));
    assert_eq!(journal_net(&batch), Decimal::ZERO);
}

#[test]
fn test_zero_delta_no_journal() {
    let batch = build_premium_delta_journal(PolicyId::new(), 0, date(2026, 2, 1), "USD").unwrap();
    assert!(batch.is_none());
}

#[test]
fn no_changes_keep_the_base_version() {
    let base = base_version();
    let updated = apply_policy_changes(&base, &PolicyChanges::default());
    assert_eq!(updated, base);
}

#[test]
fn delta_journal_carries_date_and_currency() {
    let batch = build_premium_delta_journal(PolicyId::new(), 1, date(2026, 2, 1), "INR")
        .unwrap()
        .unwrap();
    assert_eq!(batch.entries.len(), 1);
    assert_eq!(batch.entries[0].effective_date, date(2026, 2, 1));
    assert!(batch.entries[0].lines.iter().all(|l| l.currency == "INR"));
    assert_eq!(amount(&batch.entries[0].lines[0].amount), Decimal::new(1, 2));
}

#[test]
fn endorsement_plan_writes_endorsed_version_then_resequences_displaced_ones() {
    let base = base_version();
    let mut later = base_version();
    later.policy_id = base.policy_id;
    later.effective_start = date(2026, 3, 1);
    later.version_seq = 2;
    later.state = "endorsed".to_string();
    let mut latest = base_version();
    latest.policy_id = base.policy_id;
    latest.effective_start = date(2026, 4, 1);
    latest.effective_end = Some(date(2027, 1, 1));
    latest.version_seq = 3;
    let changes = PolicyChanges {
        new_premium_cents: Some(150_000),
        ..PolicyChanges::default()
    };
    let plan = plan_oos_endorsement(
        base.policy_id,
        date(2026, 2, 1),
        &changes,
        &base,
        &vec![later.clone(), latest.clone()],
        3,
    );
    assert_eq!(plan.writes.len(), 3);
    assert_eq!(plan.writes[0].content.premium_cents, 150_000);
    assert_eq!(plan.writes[0].effective_start, date(2026, 2, 1));
    assert_eq!(plan.writes[0].effective_end, None);
    assert_eq!(plan.writes[0].version_seq, 4);
    assert_eq!(plan.writes[0].source, "oos-endorsement");
    assert_eq!(plan.writes[1].content, later);
    assert_eq!(plan.writes[1].effective_start, date(2026, 3, 1));
    assert_eq!(plan.writes[1].version_seq, 5);
    assert_eq!(plan.writes[1].source, "oos-resequence");
    assert_eq!(plan.writes[2].effective_end, Some(date(2027, 1, 1)));
    assert_eq!(plan.writes[2].version_seq, 6);
    let journal = plan.journal.expect("a premium change posts a journal");
    assert_eq!(journal.entries[0].effective_date, date(2026, 2, 1));
    assert_eq!(journal.entries[0].lines[0].account_no, "1210");
    assert_eq!(amount(&journal.entries[0].lines[0].amount), Decimal::new(30_000, 2));
}

#[test]
fn endorsement_plan_without_premium_change_posts_no_journal() {
    let base = base_version();
    let changes = PolicyChanges {
        new_state: Some("endorsed".to_string()),
        ..PolicyChanges::default()
    };
    let plan = plan_oos_endorsement(base.policy_id, date(2026, 2, 1), &changes, &base, &Vec::new(), 1);
    assert_eq!(plan.writes.len(), 1);
    assert_eq!(plan.writes[0].content.state, "endorsed");
    assert_eq!(plan.writes[0].version_seq, 2);
    assert!(plan.journal.is_none());
}

fn version_input(policy_id: PolicyId) -> PolicyVersionInput {
    PolicyVersionInput {
        policy_id,
        quote_id: QuoteId::new(),
        customer_id: CustomerId::new(),
        policy_number: "POL-1".to_string(),
        line_of_business: "auto".to_string(),
        state: "active".to_string(),
        premium_cents: 125_000,
        currency: "USD".to_string(),
        coverage_json: "{}".to_string(),
        effective_start: date(2026, 1, 1),
        effective_end: None,
        source: "rust-pas-test".to_string(),
    }
}

#[test]
fn versions_are_appended_only_to_the_policy_they_name() {
    let a = PolicyId(0x11111111_1111_4111_8111_111111111111);
    let b = PolicyId(0x22222222_2222_4222_8222_222222222222);
    assert_eq!(check_append_target(a, &version_input(a)), Ok(()));
    assert_eq!(
        check_append_target(a, &version_input(b)),
        Err(PolicyLedgerError::VersionConflict(
            "input policy_id 22222222-2222-4222-8222-222222222222 does not match append policy_id 11111111-1111-4111-8111-111111111111"
                .to_string()
        ))
    );
}

#[test]
fn endorsement_locks_are_keyed_by_policy() {
    let id = PolicyId(0x11111111_1111_4111_8111_111111111111);
    assert_eq!(
        sagepas::oos::oos_lock_key(id),
        "oos:policy:11111111-1111-4111-8111-111111111111"
    );
}

#[test]
fn a_missing_policy_outranks_a_missing_base() {
    assert_eq!(endorsement_base(false, None).unwrap_err(), OosError::PolicyNotFound);
    assert_eq!(endorsement_base(false, Some(base_version())).unwrap_err(), OosError::PolicyNotFound);
    assert_eq!(endorsement_base(true, None).unwrap_err(), OosError::NoBaseVersionFound);
    let base = base_version();
    let id = base.version_id;
    assert_eq!(endorsement_base(true, Some(base)).unwrap().version_id, id);
}

#[test]
fn the_result_counts_the_displaced_versions() {
    let policy_id = PolicyId::new();
    let r = oos_result(policy_id, 3, true, 7, Some(9), 1_000);
    assert_eq!(
        r,
        OosResult {
            policy_id,
            oos_version_id: 7,
            blocking_versions_voided: 2,
            versions_resequenced: 2,
            journal_batch_id: Some(9),
            applied_at: 1_000,
        }
    );
    let r = oos_result(policy_id, 1, false, 7, None, 1_000);
    assert_eq!(r.blocking_versions_voided, 0);
    assert_eq!(r.versions_resequenced, 0);
    assert_eq!(r.journal_batch_id, None);
}
