use sagepas::ids::{PolicyId, UserId};
use sagepas::policy_ledger::{LedgerEntryKind, PolicyLedger};
use sagepas::premium_ledger::{
    check_batch_balance, check_entry_balance, validate_entry_balance, DecimalAmount, JournalEntryInput,
    JournalLineInput, PremiumEntry, PremiumEntryKind, PremiumLedger, SubledgerError,
};
use rust_decimal::Decimal;
use std::str::FromStr;

/// Midnight UTC of a date, in microseconds since the Unix epoch.
fn ts(year: i32, month: u32, day: u32) -> i64 {
    let days = days_from_civil(year, month, day);
    days * 86_400_000_000
}

fn days_from_civil(year: i32, month: u32, day: u32) -> i64 {
    let date = chrono::NaiveDate::from_ymd_opt(year, month, day).unwrap();
    let epoch = chrono::NaiveDate::from_ymd_opt(1970, 1, 1).unwrap();
    (date - epoch).num_days()
}

fn date(year: i32, month: u32, day: u32) -> i64 {
    days_from_civil(year, month, day)
}

fn dec(v: &str) -> DecimalAmount {
    let d = Decimal::from_str(v).unwrap();
    DecimalAmount::new(d.mantissa(), d.scale()).unwrap()
}

fn to_decimal(a: DecimalAmount) -> Decimal {
    Decimal::from_i128_with_scale(a.mantissa(), a.scale())
}

fn line(account: &str, amount: &str) -> JournalLineInput {
    JournalLineInput {
        account_no: account.to_string(),
        amount: dec(amount),
        currency: "USD".to_string(),
    }
}

fn net_amount_cents(entries: &[PremiumEntry]) -> i64 {
    entries
        .iter()
        .map(|entry| match &entry.kind {
            PremiumEntryKind::WrittenPremium => 0,
            PremiumEntryKind::PremiumAdjustment { delta_cents } => *delta_cents,
            PremiumEntryKind::EndorsementAdjustment { delta_cents, .. } => *delta_cents,
            PremiumEntryKind::CancellationRefund { amount_cents } => -*amount_cents,
            PremiumEntryKind::ReinstatementCharge { amount_cents } => *amount_cents,
            PremiumEntryKind::EarnedPremiumSnapshot { amount_cents } => *amount_cents,
        })
        .sum()
}

// ── policy ledger ──────────────────────────────────────────────────────────

#[test]
fn test_append_and_retrieve() {
    let mut ledger = PolicyLedger::new();
    let policy_id = PolicyId::new();

    ledger.append(policy_id, LedgerEntryKind::Issued, ts(2026, 1, 1), "rust-pas");
    ledger.append(
        policy_id,
        LedgerEntryKind::Cancelled { reason: "insured request".to_string() },
        ts(2026, 3, 1),
        "rust-pas",
    );
    ledger.append(
        policy_id,
        LedgerEntryKind::Endorsed { endorsement_id: UserId::new() },
        ts(2026, 2, 1),
        "rust-pas",
    );

    let entries = ledger.entries(&policy_id);
    assert_eq!(entries.len(), 3);
    assert_eq!(entries[0].effective_at, ts(2026, 1, 1));
    assert_eq!(entries[1].effective_at, ts(2026, 2, 1));
    assert_eq!(entries[2].effective_at, ts(2026, 3, 1));
    assert_eq!(entries[0].sequence, 1);
    assert_eq!(entries[1].sequence, 3);
    assert_eq!(entries[2].sequence, 2);
}

#[test]
fn test_out_of_sequence() {
    let mut ledger = PolicyLedger::new();
    let policy_id = PolicyId::new();

    ledger.append(policy_id, LedgerEntryKind::Issued, ts(2026, 1, 1), "rust-pas");
    let endorsement_id = UserId::new();
    ledger.append(
        policy_id,
        LedgerEntryKind::Endorsed { endorsement_id },
        ts(2025, 12, 15),
        "correction",
    );

    let dec_31 = ledger.as_of(&policy_id, ts(2025, 12, 31));
    assert_eq!(dec_31.len(), 1);
    assert!(matches!(dec_31[0].kind, LedgerEntryKind::Endorsed { .. }));

    let jan_2 = ledger.as_of(&policy_id, ts(2026, 1, 2));
    assert_eq!(jan_2.len(), 2);
    assert!(matches!(jan_2[0].kind, LedgerEntryKind::Endorsed { .. }));
    assert_eq!(jan_2[0].effective_at, ts(2025, 12, 15));
    assert_eq!(jan_2[1].kind, LedgerEntryKind::Issued);
    assert_eq!(jan_2[1].effective_at, ts(2026, 1, 1));
}

#[test]
fn test_as_of_empty() {
    let ledger = PolicyLedger::new();
    let entries = ledger.as_of(&PolicyId::new(), ts(2026, 1, 1));
    assert!(entries.is_empty());
}

#[test]
fn appends_for_one_policy_leave_others_alone() {
    let mut ledger = PolicyLedger::new();
    let a = PolicyId::new();
    let b = PolicyId::new();
    ledger.append(a, LedgerEntryKind::Issued, ts(2026, 1, 1), "rust-pas");
    let e = ledger.append(b, LedgerEntryKind::Bound, ts(2026, 1, 1), "rust-pas");
    assert_eq!(e.sequence, 1);
    assert_eq!(e.policy_id, b);
    assert_eq!(ledger.entries(&a).len(), 1);
    assert_eq!(ledger.entries(&b).len(), 1);
    assert_eq!(e.source, "rust-pas");
}

#[test]
fn same_instant_entries_keep_append_order() {
    let mut ledger = PolicyLedger::new();
    let p = PolicyId::new();
    ledger.append(p, LedgerEntryKind::Issued, ts(2026, 1, 1), "rust-pas");
    ledger.append(p, LedgerEntryKind::PremiumAdjusted { delta_cents: 500 }, ts(2026, 1, 1), "pricing");
    let entries = ledger.entries(&p);
    assert_eq!(entries[0].sequence, 1);
    assert_eq!(entries[1].sequence, 2);
}

// ── premium ledger ─────────────────────────────────────────────────────────

#[test]
fn lib_test_append_and_retrieve() {
    let mut ledger = PremiumLedger::new();
    let policy_id = PolicyId::new();

    ledger.append(policy_id, PremiumEntryKind::WrittenPremium, ts(2026, 1, 1), "rust-pas");
    ledger.append(
        policy_id,
        PremiumEntryKind::CancellationRefund { amount_cents: 50_000 },
        ts(2026, 3, 1),
        "rust-pas",
    );
    ledger.append(
        policy_id,
        PremiumEntryKind::EndorsementAdjustment {
            endorsement_id: UserId::new(),
            delta_cents: 25_000,
        },
        ts(2026, 2, 1),
        "rust-pas",
    );

    let entries = ledger.entries(&policy_id);
    assert_eq!(entries.len(), 3);
    assert_eq!(entries[0].effective_at, ts(2026, 1, 1));
    assert_eq!(entries[1].effective_at, ts(2026, 2, 1));
    assert_eq!(entries[2].effective_at, ts(2026, 3, 1));
    assert_eq!(entries[0].sequence, 1);
    assert_eq!(entries[1].sequence, 3);
    assert_eq!(entries[2].sequence, 2);
    assert!(matches!(entries[0].kind, PremiumEntryKind::WrittenPremium));
    assert!(matches!(entries[1].kind, PremiumEntryKind::EndorsementAdjustment { .. }));
    assert!(matches!(entries[2].kind, PremiumEntryKind::CancellationRefund { .. }));
}

fn adjustment_ledger(policy_id: PolicyId) -> PremiumLedger {
    let mut ledger = PremiumLedger::new();
    ledger.append(policy_id, PremiumEntryKind::WrittenPremium, ts(2026, 1, 1), "rust-pas");
    ledger.append(
        policy_id,
        PremiumEntryKind::PremiumAdjustment { delta_cents: 245_000 },
        ts(2026, 1, 1),
        "pricing",
    );
    ledger.append(
        policy_id,
        PremiumEntryKind::EndorsementAdjustment { endorsement_id: UserId::new(), delta_cents: 50_000 },
        ts(2026, 2, 1),
        "rust-pas",
    );
    ledger.append(
        policy_id,
        PremiumEntryKind::CancellationRefund { amount_cents: 100_000 },
        ts(2026, 3, 1),
        "rust-pas",
    );
    ledger
}

#[test]
fn test_adjustment_flow() {
    let policy_id = PolicyId::new();
    let ledger = adjustment_ledger(policy_id);
    let entries = ledger.entries(&policy_id);
    assert_eq!(entries.len(), 4);
    assert_eq!(entries[0].sequence, 1);
    assert_eq!(entries[1].sequence, 2);
    assert_eq!(entries[2].sequence, 3);
    assert_eq!(entries[3].sequence, 4);
    assert_eq!(net_amount_cents(&entries), 195_000);
}

#[test]
fn test_as_of_snapshot() {
    let policy_id = PolicyId::new();
    let ledger = adjustment_ledger(policy_id);

    let jan_31 = ledger.as_of(&policy_id, ts(2026, 1, 31));
    assert_eq!(jan_31.len(), 2);
    assert_eq!(net_amount_cents(&jan_31), 245_000);

    let feb_15 = ledger.as_of(&policy_id, ts(2026, 2, 15));
    assert_eq!(feb_15.len(), 3);
    assert_eq!(net_amount_cents(&feb_15), 295_000);

    let mar_15 = ledger.as_of(&policy_id, ts(2026, 3, 15));
    assert_eq!(mar_15.len(), 4);
    assert_eq!(net_amount_cents(&mar_15), 195_000);
}

// ── journal balance ────────────────────────────────────────────────────────

#[test]
fn test_balanced_entry_passes() {
    let entry = JournalEntryInput {
        effective_date: date(2026, 1, 1),
        lines: vec![line("1210", "1250.00"), line("2100", "-1200.00"), line("2200", "-50.00")],
    };
    assert!(validate_entry_balance(0, &entry).is_ok());
}

#[test]
fn test_unbalanced_entry_fails() {
    let entry = JournalEntryInput {
        effective_date: date(2026, 1, 1),
        lines: vec![line("1210", "100.00"), line("2100", "-99.99")],
    };
    let err = validate_entry_balance(2, &entry).unwrap_err();
    match err {
        SubledgerError::UnbalancedEntry { entry_index, net } => {
            assert_eq!(entry_index, 2);
            assert_eq!(to_decimal(net), Decimal::from_str("0.01").unwrap());
        }
        other => panic!("unexpected {other:?}"),
    }
}

#[test]
fn test_bind_new_business_scenario() {
    let entry = JournalEntryInput {
        effective_date: date(2026, 1, 1),
        lines: vec![
            line("1210", "1250.00"),
            line("2100", "-1200.00"),
            line("2200", "-120.00"),
            line("4010", "70.00"),
        ],
    };
    assert!(validate_entry_balance(0, &entry).is_ok());
}

#[test]
fn test_pro_rata_cancellation_scenario() {
    let entry = JournalEntryInput {
        effective_date: date(2026, 7, 2),
        lines: vec![line("2100", "598.36"), line("2200", "59.84"), line("2310", "-658.20")],
    };
    assert!(validate_entry_balance(0, &entry).is_ok());
}

#[test]
fn mixed_scales_balance_by_value() {
    let entry = JournalEntryInput {
        effective_date: date(2026, 1, 1),
        lines: vec![line("1210", "10"), line("2100", "-10.000")],
    };
    assert!(matches!(check_entry_balance(0, &entry), Some(Ok(()))));
}

#[test]
fn decimal_amounts_reject_unrepresentable_parts() {
    assert!(DecimalAmount::new(1, 29).is_none());
    assert!(DecimalAmount::new(i128::MAX, 0).is_none());
    let a = DecimalAmount::from_cents(-2_500);
    assert_eq!(to_decimal(a), Decimal::from_str("-25").unwrap());
    assert_eq!(to_decimal(a.negated()), Decimal::from_str("25.00").unwrap());
}

#[test]
fn a_batch_stops_at_its_first_unbalanced_entry() {
    let balanced = || JournalEntryInput {
        effective_date: date(2026, 1, 1),
        lines: vec![line("1210", "10.00"), line("2100", "-10.00")],
    };
    let unbalanced = |amount: &str| JournalEntryInput {
        effective_date: date(2026, 1, 1),
        lines: vec![line("1210", "10.00"), line("2100", amount)],
    };
    assert!(matches!(check_batch_balance(&vec![balanced(), balanced()]), Some(Ok(()))));
    assert!(matches!(check_batch_balance(&Vec::new()), Some(Ok(()))));
    let batch = vec![balanced(), unbalanced("-9.00"), unbalanced("-8.00")];
    match check_batch_balance(&batch) {
        Some(Err(SubledgerError::UnbalancedEntry { entry_index, net })) => {
            assert_eq!(entry_index, 1);
            assert_eq!(to_decimal(net), Decimal::from_str("1.00").unwrap());
        }
        other => panic!("expected an unbalanced entry, got {other:?}"),
    }
}

#[test]
fn appended_entries_get_version_4_identifiers() {
    let mut policies = PolicyLedger::new();
    let mut premiums = PremiumLedger::new();
    let policy_id = PolicyId::new();
    for _ in 0..3 {
        let e = policies.append(policy_id, LedgerEntryKind::Issued, ts(2026, 1, 1), "rust-pas");
        assert_eq!((e.id.0 >> 76) & 0xF, 4);
        assert_eq!((e.id.0 >> 62) & 0x3, 2);
        let p = premiums.append(policy_id, PremiumEntryKind::WrittenPremium, ts(2026, 1, 1), "rust-pas");
        assert_eq!((p.id >> 76) & 0xF, 4);
        assert_eq!((p.id >> 62) & 0x3, 2);
    }
}
