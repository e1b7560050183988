use sagepas::insurance::RateFactor;
use sagepas::underwriting::{
    aggregate, FactorOutcome, FactorResult, evaluate_auto, evaluate_life, evaluate_property, AutoRiskProfile, LifeRiskProfile,
    PropertyRiskProfile, UnderwritingDecision,
};

fn dollars(d: i64) -> Option<i64> {
    Some(d * 100)
}

fn multiplier(ppm: i64) -> f64 {
    ppm as f64 / 1_000_000.0
}

fn base_profile() -> AutoRiskProfile {
    AutoRiskProfile {
        driver_age: Some(35),
        prior_claims_5y: Some(0),
        coverage_amount_cents: dollars(20_000),
        vehicle_value_cents: dollars(25_000),
    }
}

#[test]
fn clean_risk_is_quoted() {
    let result = evaluate_auto(&base_profile());
    assert_eq!(result.decision, UnderwritingDecision::Quoted);
    assert_eq!(multiplier(result.risk_multiplier_ppm), 1.0);
    assert!(result.reasons.is_empty());
}

#[test]
fn three_prior_claims_is_declined() {
    let mut profile = base_profile();
    profile.prior_claims_5y = Some(3);
    let result = evaluate_auto(&profile);
    assert_eq!(result.decision, UnderwritingDecision::Declined);
    assert!(!result.reasons.is_empty());
    assert!(result.reasons[0].contains("3 claims"));
}

#[test]
fn over_insurance_is_declined() {
    let mut profile = base_profile();
    profile.coverage_amount_cents = dollars(40_000);
    profile.vehicle_value_cents = dollars(20_000);
    let result = evaluate_auto(&profile);
    assert_eq!(result.decision, UnderwritingDecision::Declined);
    assert!(result.reasons[0].contains("insurable-interest"));
}

#[test]
fn underage_driver_is_declined() {
    let mut profile = base_profile();
    profile.driver_age = Some(16);
    let result = evaluate_auto(&profile);
    assert_eq!(result.decision, UnderwritingDecision::Declined);
    assert!(result.reasons[0].contains("minimum insurable age"));
}

#[test]
fn two_prior_claims_is_referred_not_declined() {
    let mut profile = base_profile();
    profile.prior_claims_5y = Some(2);
    let result = evaluate_auto(&profile);
    assert_eq!(result.decision, UnderwritingDecision::Referred);
    assert!(result.reasons[0].contains("2 claims"));
}

#[test]
fn young_driver_high_coverage_is_referred() {
    let mut profile = base_profile();
    profile.driver_age = Some(20);
    profile.coverage_amount_cents = dollars(60_000);
    profile.vehicle_value_cents = dollars(55_000);
    let result = evaluate_auto(&profile);
    assert_eq!(result.decision, UnderwritingDecision::Referred);
    assert!(result.reasons.iter().any(|r| r.contains("young driver")));
}

#[test]
fn high_value_vehicle_is_referred() {
    let mut profile = base_profile();
    profile.vehicle_value_cents = dollars(200_000);
    profile.coverage_amount_cents = dollars(180_000);
    let result = evaluate_auto(&profile);
    assert_eq!(result.decision, UnderwritingDecision::Referred);
    assert!(result.reasons[0].contains("specialist review"));
}

#[test]
fn decline_wins_over_refer_when_both_present() {
    let mut profile = base_profile();
    profile.prior_claims_5y = Some(2);
    profile.driver_age = Some(16);
    let result = evaluate_auto(&profile);
    assert_eq!(result.decision, UnderwritingDecision::Declined);
}

#[test]
fn missing_age_is_referred_not_silently_accepted() {
    let mut profile = base_profile();
    profile.driver_age = None;
    let result = evaluate_auto(&profile);
    assert_eq!(result.decision, UnderwritingDecision::Referred);
}

#[test]
fn accepted_risk_loadings_compound_into_multiplier() {
    let mut profile = base_profile();
    profile.prior_claims_5y = Some(1);
    profile.vehicle_value_cents = dollars(100_000);
    profile.coverage_amount_cents = dollars(90_000);
    let result = evaluate_auto(&profile);
    assert_eq!(result.decision, UnderwritingDecision::Quoted);
    assert!((multiplier(result.risk_multiplier_ppm) - (1.25 * 1.35)).abs() < 1e-9);
}

fn base_property_profile() -> PropertyRiskProfile {
    PropertyRiskProfile {
        prior_claims_5y: Some(0),
        coverage_amount_cents: dollars(300_000),
        property_value_cents: dollars(350_000),
    }
}

#[test]
fn clean_property_risk_is_quoted() {
    let result = evaluate_property(&base_property_profile());
    assert_eq!(result.decision, UnderwritingDecision::Quoted);
    assert_eq!(multiplier(result.risk_multiplier_ppm), 1.0);
    assert!(result.reasons.is_empty());
}

#[test]
fn property_three_prior_claims_is_declined() {
    let mut profile = base_property_profile();
    profile.prior_claims_5y = Some(3);
    let result = evaluate_property(&profile);
    assert_eq!(result.decision, UnderwritingDecision::Declined);
    assert!(result.reasons[0].contains("3 claims"));
}

#[test]
fn property_over_insurance_is_declined() {
    let mut profile = base_property_profile();
    profile.coverage_amount_cents = dollars(600_000);
    profile.property_value_cents = dollars(300_000);
    let result = evaluate_property(&profile);
    assert_eq!(result.decision, UnderwritingDecision::Declined);
    assert!(result.reasons[0].contains("insurable-interest"));
}

#[test]
fn property_two_prior_claims_is_referred_not_declined() {
    let mut profile = base_property_profile();
    profile.prior_claims_5y = Some(2);
    let result = evaluate_property(&profile);
    assert_eq!(result.decision, UnderwritingDecision::Referred);
    assert!(result.reasons[0].contains("2 claims"));
}

#[test]
fn property_missing_value_is_referred_not_silently_accepted() {
    let mut profile = base_property_profile();
    profile.property_value_cents = None;
    let result = evaluate_property(&profile);
    assert_eq!(result.decision, UnderwritingDecision::Referred);
    assert!(result.reasons[0].contains("insurable interest"));
}

#[test]
fn property_decline_wins_over_refer_when_both_present() {
    let mut profile = base_property_profile();
    profile.prior_claims_5y = Some(2);
    profile.coverage_amount_cents = dollars(600_000);
    profile.property_value_cents = dollars(300_000);
    let result = evaluate_property(&profile);
    assert_eq!(result.decision, UnderwritingDecision::Declined);
}

#[test]
fn property_moderate_ratio_is_referred() {
    let mut profile = base_property_profile();
    profile.coverage_amount_cents = dollars(455_000);
    profile.property_value_cents = dollars(350_000);
    let result = evaluate_property(&profile);
    assert_eq!(result.decision, UnderwritingDecision::Referred);
    assert!(result.reasons[0].contains("over-insurance"));
}

fn base_life_profile() -> LifeRiskProfile {
    LifeRiskProfile {
        applicant_age: Some(40),
        prior_claims_5y: Some(0),
        coverage_amount_cents: dollars(150_000),
    }
}

#[test]
fn clean_life_risk_is_quoted() {
    let result = evaluate_life(&base_life_profile());
    assert_eq!(result.decision, UnderwritingDecision::Quoted);
    assert_eq!(multiplier(result.risk_multiplier_ppm), 1.0);
    assert!(result.reasons.is_empty());
}

#[test]
fn life_three_prior_claims_is_declined() {
    let mut profile = base_life_profile();
    profile.prior_claims_5y = Some(3);
    let result = evaluate_life(&profile);
    assert_eq!(result.decision, UnderwritingDecision::Declined);
    assert!(result.reasons[0].contains("3 claims"));
}

#[test]
fn life_over_maximum_coverage_is_declined() {
    let mut profile = base_life_profile();
    profile.coverage_amount_cents = dollars(1_500_000);
    let result = evaluate_life(&profile);
    assert_eq!(result.decision, UnderwritingDecision::Declined);
    assert!(result.reasons[0].contains("specialist reinsurance"));
}

#[test]
fn life_underage_applicant_is_declined() {
    let mut profile = base_life_profile();
    profile.applicant_age = Some(16);
    let result = evaluate_life(&profile);
    assert_eq!(result.decision, UnderwritingDecision::Declined);
    assert!(result.reasons[0].contains("minimum insurable age"));
}

#[test]
fn life_two_prior_claims_is_referred_not_declined() {
    let mut profile = base_life_profile();
    profile.prior_claims_5y = Some(2);
    let result = evaluate_life(&profile);
    assert_eq!(result.decision, UnderwritingDecision::Referred);
    assert!(result.reasons[0].contains("2 claims"));
}

#[test]
fn life_above_guaranteed_issue_limit_is_referred() {
    let mut profile = base_life_profile();
    profile.coverage_amount_cents = dollars(500_000);
    let result = evaluate_life(&profile);
    assert_eq!(result.decision, UnderwritingDecision::Referred);
    assert!(result.reasons[0].contains("medical underwriting"));
}

#[test]
fn life_missing_age_is_referred_not_silently_accepted() {
    let mut profile = base_life_profile();
    profile.applicant_age = None;
    let result = evaluate_life(&profile);
    assert_eq!(result.decision, UnderwritingDecision::Referred);
}

#[test]
fn life_decline_wins_over_refer_when_both_present() {
    let mut profile = base_life_profile();
    profile.coverage_amount_cents = dollars(500_000);
    profile.applicant_age = Some(16);
    let result = evaluate_life(&profile);
    assert_eq!(result.decision, UnderwritingDecision::Declined);
}

#[test]
fn life_senior_surcharge_still_quotes() {
    let mut profile = base_life_profile();
    profile.applicant_age = Some(70);
    let result = evaluate_life(&profile);
    assert_eq!(result.decision, UnderwritingDecision::Quoted);
    assert_eq!(multiplier(result.risk_multiplier_ppm), 1.4);
}

// ── further cases ──────────────────────────────────────────────────────────

#[test]
fn factors_are_reported_in_evaluation_order() {
    let result = evaluate_auto(&base_profile());
    let names: Vec<&str> = result.factors.iter().map(|f| f.name.as_str()).collect();
    assert_eq!(
        names,
        vec!["driver_age", "prior_claims_5y", "coverage_to_value_ratio", "vehicle_value_band"]
    );
}

#[test]
fn declined_and_referred_results_keep_unit_multiplier() {
    let mut profile = base_profile();
    profile.prior_claims_5y = Some(1);
    profile.driver_age = Some(16);
    let result = evaluate_auto(&profile);
    assert_eq!(result.decision, UnderwritingDecision::Declined);
    assert_eq!(result.risk_multiplier_ppm, 1_000_000);
}

#[test]
fn missing_claims_history_is_never_quoted() {
    let mut profile = base_life_profile();
    profile.prior_claims_5y = None;
    let result = evaluate_life(&profile);
    assert_ne!(result.decision, UnderwritingDecision::Quoted);
    assert!(!result.reasons.is_empty());
}

fn factor(name: &str, value_ppm: i64, outcome: FactorOutcome, reason: Option<&str>) -> FactorResult {
    FactorResult {
        factor: RateFactor { name: name.to_string(), value_ppm, description: None },
        outcome,
        reason: reason.map(str::to_string),
    }
}

#[test]
fn aggregation_takes_any_number_of_factors() {
    let loadings: Vec<FactorResult> =
        (0..6).map(|i| factor(&format!("f{i}"), 1_500_000, FactorOutcome::Accept, None)).collect();
    let r = aggregate(loadings);
    assert_eq!(r.decision, UnderwritingDecision::Quoted);
    // 1.5^6 = 11.390625
    assert_eq!(r.risk_multiplier_ppm, 11_390_625);
    assert_eq!(r.factors.len(), 6);
    assert!(r.reasons.is_empty());

    let r = aggregate(vec![
        factor("a", 1_200_000, FactorOutcome::Refer, Some("refer a")),
        factor("b", 1_000_000, FactorOutcome::Decline, Some("decline b")),
        factor("c", 1_000_000, FactorOutcome::Decline, Some("decline c")),
        factor("d", 1_000_000, FactorOutcome::Refer, Some("refer d")),
        factor("e", 1_000_000, FactorOutcome::Accept, None),
    ]);
    assert_eq!(r.decision, UnderwritingDecision::Declined);
    assert_eq!(r.risk_multiplier_ppm, 1_000_000);
    assert_eq!(r.reasons, vec!["decline b".to_string(), "decline c".to_string()]);
    assert_eq!(r.factors.iter().map(|f| f.name.clone()).collect::<Vec<_>>(), vec!["a", "b", "c", "d", "e"]);
}
