use sagepas::insurance::{Currency, InsuranceType, RateFactor};
use sagepas::pricing::{
    build_query, currency_for_country, default_rates, factor_candidates, index_for_type,
    kb_factor_name, PremiumRequest,
};
use sagepas::rating::{
    PasProvider, PricingAmount, PricingEvidence, RatingDecision, RatingError, RatingProvider,
    RatingRequest, RiskData,
};

fn uae_auto_request() -> PremiumRequest {
    PremiumRequest {
        insurance_type: InsuranceType::Auto,
        country: "AE".to_string(),
        state_code: Some("DU".to_string()),
        coverage_amount_cents: 10_000_000,
        customer_age: Some(35),
        vehicle_value_cents: Some(8_000_000),
    }
}

#[test]
fn uae_requests_use_aed() {
    assert_eq!(currency_for_country("AE"), Currency::Aed);
    assert_eq!(currency_for_country("ae"), Currency::Aed);
}

#[test]
fn uae_auto_has_aed_specific_base_rate() {
    let (base_rate_micros, factors) = default_rates(&uae_auto_request());
    assert_eq!(base_rate_micros as f64 / 1_000_000.0, 1500.0);
    assert!(!factors.is_empty());
}

#[test]
fn vehicle_load_is_capped_at_one_half() {
    let (_, factors) = default_rates(&uae_auto_request());
    assert_eq!(factors[0].name, "vehicle_value_load");
    assert_eq!(factors[0].value_ppm, 1_500_000);
    assert_eq!(
        factors[0].description.as_deref(),
        Some("load based on vehicle value $80000")
    );
}

#[test]
fn life_age_bands_and_property_rate() {
    let life = PremiumRequest {
        insurance_type: InsuranceType::Life,
        country: "IN".to_string(),
        state_code: None,
        coverage_amount_cents: 0,
        customer_age: Some(50),
        vehicle_value_cents: None,
    };
    let (base, factors) = default_rates(&life);
    assert_eq!(base, 400_000_000);
    assert_eq!(factors[0].value_ppm, 1_800_000);
    assert_eq!(factors[0].description.as_deref(), Some("mortality load for age 50"));

    let property = PremiumRequest {
        insurance_type: InsuranceType::Property,
        country: "US".to_string(),
        state_code: Some("CT".to_string()),
        coverage_amount_cents: 30_000_000,
        customer_age: None,
        vehicle_value_cents: None,
    };
    let (base, factors) = default_rates(&property);
    // 0.5% of $300,000 is $1,500.
    assert_eq!(base, 1_500_000_000);
    assert!(factors.is_empty());
}

#[test]
fn knowledge_base_index_per_line() {
    assert_eq!(index_for_type(&InsuranceType::Marine), "insurance-marine-kb");
    assert_eq!(index_for_type(&InsuranceType::Health), "insurance-health-kb");
    assert_eq!(currency_for_country("in"), Currency::Inr);
    assert_eq!(currency_for_country("GB"), Currency::Usd);
}

fn pricing(base: i64, final_cents: i64, currency: Option<&str>, factors: Vec<RateFactor>) -> PricingEvidence {
    PricingEvidence {
        base_rate_micros: Some(PricingAmount::Finite(base)),
        final_premium_cents: Some(PricingAmount::Finite(final_cents)),
        currency: currency.map(|c| c.to_string()),
        factors: Ok(factors),
    }
}

fn request(carrier_id: &str, pricing: Option<PricingEvidence>) -> RatingRequest {
    RatingRequest {
        carrier_id: carrier_id.to_string(),
        product_id: "auto-us".to_string(),
        state: "TX".to_string(),
        risk: RiskData {
            pricing,
            customer_age: None,
            prior_claims_count: None,
            coverage_amount_cents: None,
            vehicle_value_cents: None,
        },
    }
}

fn clean_pricing() -> PricingEvidence {
    pricing(1_200_000_000, 120_000, Some("USD"), vec![])
}

fn auto_request(age: u64, coverage_dollars: i64, vehicle_dollars: i64, claims: i64) -> RatingRequest {
    let mut r = request("sagesure_pas", Some(clean_pricing()));
    r.risk.customer_age = Some(age);
    r.risk.coverage_amount_cents = Some(coverage_dollars * 100);
    r.risk.vehicle_value_cents = Some(vehicle_dollars * 100);
    r.risk.prior_claims_count = Some(claims);
    r
}

#[test]
fn promotes_native_pricing_without_recalculating_premium() {
    let provider = PasProvider::new();
    let factor = RateFactor {
        name: "vehicle_value".to_string(),
        value_ppm: 1_200_000,
        description: Some("Vehicle value factor".to_string()),
    };
    let result = provider
        .rate(request(
            "sagesure_pas",
            Some(pricing(1_500_000_000, 180_000, Some("USD"), vec![factor])),
        ))
        .expect("native pricing should produce a quote");

    assert!(matches!(result.decision, RatingDecision::Quoted));
    let premium = result.premium.expect("quoted result must contain premium");
    assert_eq!(premium.base_rate_micros as f64 / 1_000_000.0, 1_500.0);
    assert_eq!(premium.final_premium_cents as f64 / 100.0, 1_800.0);
    assert_eq!(result.provider.id, "pas:native:v1");
}

#[test]
fn rejects_missing_native_pricing() {
    let provider = PasProvider::new();
    let error = provider
        .rate(request("pas", None))
        .expect_err("pricing evidence is required");
    assert!(matches!(error, RatingError::NotSupported { .. }));
}

#[test]
fn rejects_non_positive_premium() {
    let provider = PasProvider::new();
    let error = provider
        .rate(request("pas", Some(pricing(100_000_000, 0, Some("USD"), vec![]))))
        .expect_err("zero premium must not be quoted");
    assert!(matches!(error, RatingError::MappingFailed(_)));
}

#[test]
fn supports_only_native_pas_carrier_aliases() {
    let provider = PasProvider::new();
    assert!(provider.supports(&request("pas", None)));
    assert!(provider.supports(&request("SAGESURE_PAS", None)));
    assert!(!provider.supports(&request("unconfigured_carrier", None)));
}

#[test]
fn auto_quote_with_clean_risk_is_quoted_with_underwriting_factors_attached() {
    let provider = PasProvider::new();
    let result = provider
        .rate(auto_request(35, 20_000, 25_000, 0))
        .expect("clean auto risk should be quoted");
    assert!(matches!(result.decision, RatingDecision::Quoted));
    let premium = result.premium.expect("quoted result must contain premium");
    assert_eq!(premium.final_premium_cents as f64 / 100.0, 1_200.0);
    assert!(premium.factors.iter().any(|f| f.name == "driver_age"));
    assert!(premium.factors.iter().any(|f| f.name == "prior_claims_5y"));
}

#[test]
fn auto_quote_with_three_prior_claims_is_declined_end_to_end() {
    let provider = PasProvider::new();
    let result = provider
        .rate(auto_request(35, 20_000, 25_000, 3))
        .expect("declined is a successful RatingResult, not an error");
    assert!(matches!(result.decision, RatingDecision::Declined));
    assert!(result.premium.is_none(), "declined quotes must not carry a bindable premium");
    assert!(result
        .referral_reason
        .expect("decline must carry a reason")
        .contains("3 claims"));
}

#[test]
fn auto_quote_with_two_prior_claims_is_referred_end_to_end() {
    let provider = PasProvider::new();
    let result = provider
        .rate(auto_request(35, 20_000, 25_000, 2))
        .expect("referred is a successful RatingResult, not an error");
    assert!(matches!(result.decision, RatingDecision::Referred));
    assert!(result.premium.is_none(), "referred quotes must not carry a bindable premium");
    assert!(result
        .referral_reason
        .expect("referral must carry a reason")
        .contains("2 claims"));
}

#[test]
fn auto_quote_applies_risk_multiplier_on_top_of_pricing_premium() {
    let provider = PasProvider::new();
    let result = provider
        .rate(auto_request(35, 90_000, 100_000, 1))
        .expect("elevated but acceptable risk should still be quoted");
    assert!(matches!(result.decision, RatingDecision::Quoted));
    let premium = result.premium.expect("quoted result must contain premium");
    let expected: f64 = (1_200.0 * 1.25 * 1.35 * 100.0_f64).round() / 100.0;
    assert_eq!(premium.final_premium_cents as f64 / 100.0, expected);
    assert!(
        premium.final_premium_cents > 120_000,
        "risk loadings must actually change the bound premium"
    );
}

#[test]
fn non_auto_quote_without_vehicle_value_still_promotes_pricing_as_before() {
    let provider = PasProvider::new();
    let result = provider
        .rate(request("sagesure_pas", Some(clean_pricing())))
        .expect("non-auto lines pass through pending underwriting coverage");
    assert!(matches!(result.decision, RatingDecision::Quoted));
}

// ── further cases ──────────────────────────────────────────────────────────

#[test]
fn currency_defaults_to_usd_and_ignores_case() {
    let provider = PasProvider::new();
    let r = provider
        .rate(request("pas", Some(pricing(1, 100, None, vec![]))))
        .unwrap();
    assert_eq!(r.premium.unwrap().currency, Currency::Usd);
    let r = provider
        .rate(request("pas", Some(pricing(1, 100, Some("inr"), vec![]))))
        .unwrap();
    assert_eq!(r.premium.unwrap().currency, Currency::Inr);
}

#[test]
fn every_mapping_error_names_its_cause() {
    let provider = PasProvider::new();
    let reason = |e: RatingError| match e {
        RatingError::MappingFailed(m) => m,
        other => panic!("unexpected {other:?}"),
    };
    let mut p = clean_pricing();
    p.base_rate_micros = None;
    assert_eq!(
        reason(provider.rate(request("pas", Some(p))).unwrap_err()),
        "pricing.base_rate is required"
    );
    let mut p = clean_pricing();
    p.final_premium_cents = None;
    assert_eq!(
        reason(provider.rate(request("pas", Some(p))).unwrap_err()),
        "pricing.final_premium is required"
    );
    let mut p = clean_pricing();
    p.base_rate_micros = Some(PricingAmount::NonFinite);
    assert_eq!(
        reason(provider.rate(request("pas", Some(p))).unwrap_err()),
        "native pricing values must be finite and final_premium must be positive"
    );
    assert_eq!(
        reason(
            provider
                .rate(request("pas", Some(pricing(1, 100, Some("eur"), vec![]))))
                .unwrap_err()
        ),
        "unsupported pricing currency: EUR"
    );
    let mut p = clean_pricing();
    p.factors = Err("invalid type: string".to_string());
    assert_eq!(
        reason(provider.rate(request("pas", Some(p))).unwrap_err()),
        "pricing.factors: invalid type: string"
    );
}

#[test]
fn missing_pricing_names_the_provider() {
    let provider = PasProvider::new();
    match provider.rate(request("pas", None)).unwrap_err() {
        RatingError::NotSupported { provider, reason } => {
            assert_eq!(provider, "pas:native:v1");
            assert_eq!(reason, "native pricing calculation is required before PAS rating");
        }
        other => panic!("unexpected {other:?}"),
    }
}

#[test]
fn declined_reasons_are_joined_with_semicolons() {
    let provider = PasProvider::new();
    let result = provider.rate(auto_request(16, 20_000, 25_000, 3)).unwrap();
    let reason = result.referral_reason.unwrap();
    assert!(reason.contains("; "));
    assert_eq!(result.carrier, "sagesure_pas");
    assert_eq!(result.product, "auto-us");
}

#[test]
fn search_query_lists_the_request_fields_in_order() {
    assert_eq!(
        build_query(&uae_auto_request()),
        "auto insurance country AE state DU age 35 vehicle value 80000 coverage 100000"
    );
    let life = PremiumRequest {
        insurance_type: InsuranceType::Life,
        country: "IN".to_string(),
        state_code: None,
        coverage_amount_cents: 123_450,
        customer_age: None,
        vehicle_value_cents: None,
    };
    assert_eq!(build_query(&life), "life insurance country IN coverage 1234.5");
    let marine = PremiumRequest {
        insurance_type: InsuranceType::Marine,
        country: "US".to_string(),
        state_code: None,
        coverage_amount_cents: 7,
        customer_age: None,
        vehicle_value_cents: None,
    };
    assert_eq!(build_query(&marine), "marine insurance country US coverage 0.07");
}

#[test]
fn factor_candidates_are_the_words_after_rate_or_factor() {
    assert_eq!(
        factor_candidates("Base RATE: 1.2, adjusted"),
        Some(vec!["1.2".to_string(), "adjusted".to_string()])
    );
    assert_eq!(
        factor_candidates("Loading factor  0.95; applies to all drivers"),
        Some(vec!["0.95".to_string(), "applies".to_string(), "to".to_string()])
    );
    // "rate" wins over an earlier "factor"
    assert_eq!(
        factor_candidates("factor 2 then rate 1.1"),
        Some(vec!["1.1".to_string()])
    );
    assert_eq!(factor_candidates("no numbers here"), None);
    assert_eq!(factor_candidates("separate"), Some(vec![]));
    assert_eq!(kb_factor_name(3), "kb_factor_3");
}
