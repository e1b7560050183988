//! Rating providers and the native PAS adapter.
//!
//! The PAS provider does not price: it checks the pricing engine's complete
//! calculation, runs Auto risks through deterministic underwriting and turns
//! the outcome into a decision. Accepted risks carry the underwriting
//! loadings on top of the priced premium; referred and declined risks carry
//! no premium, only the reasons.

use vstd::prelude::*;
use crate::insurance::{
    factors_view, opt_text, Currency, PremiumCalculation, PremiumCalculationSpec, RateFactor,
    RateFactorSpec,
};
use crate::text::{
    ascii_upper_seq, ascii_uppercase_chars, chars_eq_str, chars_of, eq_ignore_ascii_case,
    eq_ignore_ascii_case_spec, join_seq, join_strings, string_of,
};
use crate::underwriting::{
    aggregate_spec, auto_factors, evaluate_auto, lemma_underwriting_never_discounts,
    lemma_unquoted_results_carry_reasons,
    AutoRiskProfile, LifeRiskProfile, PropertyRiskProfile, UnderwritingDecision,
    UnderwritingResult,
};

verus! {

/// Underwriting decision from a rating provider.
#[derive(Debug, Clone, Copy, PartialEq, Eq, Structural)]
pub enum RatingDecision {
    /// Full quote returned.
    Quoted,
    /// Needs manual underwriter review.
    Referred,
    /// Risk declined by the carrier.
    Declined,
    /// Technical error during rating.
    Error,
}

#[derive(Debug, Clone, Copy, PartialEq, Eq, Structural)]
pub enum ExecutionMode {
    Pas,
}

#[derive(Debug)]
pub struct ProviderIdentity {
    pub id: String,
    pub version: String,
    pub execution_mode: ExecutionMode,
}

pub struct ProviderIdentitySpec {
    pub id: Seq<char>,
    pub version: Seq<char>,
    pub execution_mode: ExecutionMode,
}

impl View for ProviderIdentity {
    type V = ProviderIdentitySpec;

    open spec fn view(&self) -> ProviderIdentitySpec {
        ProviderIdentitySpec {
            id: self.id@,
            version: self.version@,
            execution_mode: self.execution_mode,
        }
    }
}

/// A monetary figure taken from the pricing evidence: a finite amount in
/// the field's unit, or a value that was not a finite number.
#[derive(Debug, Clone, Copy, PartialEq, Eq, Structural)]
pub enum PricingAmount {
    Finite(i64),
    NonFinite,
}

/// The pricing engine's calculation as it arrives with a rating request.
/// Each field is what the request carried: `None` where it was absent, and
/// for the factors the list or the reason it could not be read.
#[derive(Debug)]
pub struct PricingEvidence {
    /// Base rate in millionths of a currency unit.
    pub base_rate_micros: Option<PricingAmount>,
    /// Final premium in cents.
    pub final_premium_cents: Option<PricingAmount>,
    /// Currency code as written; `USD` when absent.
    pub currency: Option<String>,
    pub factors: Result<Vec<RateFactor>, String>,
}

/// Canonical risk data of a request, as extracted upstream.
#[derive(Debug)]
pub struct RiskData {
    pub pricing: Option<PricingEvidence>,
    pub customer_age: Option<u64>,
    pub prior_claims_count: Option<i64>,
    pub coverage_amount_cents: Option<i64>,
    /// Present only for Auto risks.
    pub vehicle_value_cents: Option<i64>,
}

/// Carrier-specific rating request.
#[derive(Debug)]
pub struct RatingRequest {
    /// e.g. "travelers"
    pub carrier_id: String,
    /// e.g. "HO3"
    pub product_id: String,
    /// e.g. "TX"
    pub state: String,
    pub risk: RiskData,
}

/// Canonical rating result: what every rating provider returns.
#[derive(Debug)]
pub struct RatingResult {
    pub decision: RatingDecision,
    pub premium: Option<PremiumCalculation>,
    pub referral_reason: Option<String>,
    pub carrier: String,
    pub product: String,
    pub provider: ProviderIdentity,
}

pub struct RatingResultSpec {
    pub decision: RatingDecision,
    pub premium: Option<PremiumCalculationSpec>,
    pub referral_reason: Option<Seq<char>>,
    pub carrier: Seq<char>,
    pub product: Seq<char>,
    pub provider: ProviderIdentitySpec,
}

impl View for RatingResult {
    type V = RatingResultSpec;

    open spec fn view(&self) -> RatingResultSpec {
        RatingResultSpec {
            decision: self.decision,
            premium: match self.premium {
                Some(p) => Some(p@),
                None => None,
            },
            referral_reason: opt_text(self.referral_reason),
            carrier: self.carrier@,
            product: self.product@,
            provider: self.provider@,
        }
    }
}

#[derive(Debug)]
pub enum RatingError {
    NotSupported { provider: String, reason: String },
    MappingFailed(String),
    ExecutionFailed(String),
    Timeout(u64),
}

pub enum RatingErrorSpec {
    NotSupported { provider: Seq<char>, reason: Seq<char> },
    MappingFailed(Seq<char>),
    ExecutionFailed(Seq<char>),
    Timeout(u64),
}

impl View for RatingError {
    type V = RatingErrorSpec;

    open spec fn view(&self) -> RatingErrorSpec {
        match self {
            RatingError::NotSupported { provider, reason } => RatingErrorSpec::NotSupported {
                provider: provider@,
                reason: reason@,
            },
            RatingError::MappingFailed(m) => RatingErrorSpec::MappingFailed(m@),
            RatingError::ExecutionFailed(m) => RatingErrorSpec::ExecutionFailed(m@),
            RatingError::Timeout(s) => RatingErrorSpec::Timeout(*s),
        }
    }
}

/// The model of a rating outcome.
pub open spec fn rating_outcome(r: Result<RatingResult, RatingError>) -> Result<
    RatingResultSpec,
    RatingErrorSpec,
> {
    match r {
        Ok(x) => Ok(x@),
        Err(e) => Err(e@),
    }
}

/// Every rater (spreadsheet, carrier API, native) converges on this.
pub trait RatingProvider {
    fn rate(&self, request: RatingRequest) -> Result<RatingResult, RatingError>;

    fn supports(&self, request: &RatingRequest) -> bool;

    fn identity(&self) -> ProviderIdentity;
}

// ── the native PAS provider ────────────────────────────────────────────────

pub open spec fn pas_identity() -> ProviderIdentitySpec {
    ProviderIdentitySpec {
        id: "pas:native:v1"@,
        version: "1.0.0"@,
        execution_mode: ExecutionMode::Pas,
    }
}

/// The upper-cased currency code of the evidence (`USD` when absent) and
/// the currency it names.
pub open spec fn pricing_currency(code: Option<String>) -> Result<Currency, RatingErrorSpec> {
    let c = ascii_upper_seq(
        match code {
            Some(s) => s@,
            None => "USD"@,
        },
    );
    if c == "INR"@ {
        Ok(Currency::Inr)
    } else if c == "USD"@ {
        Ok(Currency::Usd)
    } else if c == "AED"@ {
        Ok(Currency::Aed)
    } else {
        Err(RatingErrorSpec::MappingFailed("unsupported pricing currency: "@ + c))
    }
}

/// The checked pricing evidence: base rate, final premium, currency and
/// factors, or the first thing wrong with it.
pub open spec fn checked_pricing(p: PricingEvidence) -> Result<
    (int, int, Currency, Seq<RateFactorSpec>),
    RatingErrorSpec,
> {
    match p.base_rate_micros {
        None => Err(RatingErrorSpec::MappingFailed("pricing.base_rate is required"@)),
        Some(base) => match p.final_premium_cents {
            None => Err(RatingErrorSpec::MappingFailed("pricing.final_premium is required"@)),
            Some(fin) => {
                if base is NonFinite || fin is NonFinite || fin->0 <= 0 {
                    Err(
                        RatingErrorSpec::MappingFailed(
                            "native pricing values must be finite and final_premium must be positive"@,
                        ),
                    )
                } else {
                    match pricing_currency(p.currency) {
                        Err(e) => Err(e),
                        Ok(c) => match p.factors {
                            Err(e) => Err(RatingErrorSpec::MappingFailed("pricing.factors: "@ + e@)),
                            Ok(fs) => Ok((base->0 as int, fin->0 as int, c, factors_view(fs@))),
                        },
                    }
                }
            },
        },
    }
}

/// The Auto profile underwriting reads from the risk data (the age is
/// narrowed to 32 bits).
pub open spec fn auto_profile_of(r: RiskData) -> AutoRiskProfile {
    AutoRiskProfile {
        driver_age: match r.customer_age {
            Some(a) => Some(a as u32),
            None => None,
        },
        prior_claims_5y: r.prior_claims_count,
        coverage_amount_cents: r.coverage_amount_cents,
        vehicle_value_cents: r.vehicle_value_cents,
    }
}

/// The priced premium with the risk multiplier applied, rounded to the
/// nearest cent with halves away from zero.
pub open spec fn underwritten_cents(final_cents: int, multiplier_ppm: int) -> int {
    (final_cents * multiplier_ppm + 500_000) / 1_000_000
}

pub open spec fn result_spec(
    req: RatingRequest,
    decision: RatingDecision,
    premium: Option<PremiumCalculationSpec>,
    referral_reason: Option<Seq<char>>,
) -> RatingResultSpec {
    RatingResultSpec {
        decision,
        premium,
        referral_reason,
        carrier: req.carrier_id@,
        product: req.product_id@,
        provider: pas_identity(),
    }
}

/// What the PAS provider answers to a request.
pub open spec fn pas_rate(req: RatingRequest) -> Result<RatingResultSpec, RatingErrorSpec> {
    match req.risk.pricing {
        None => Err(
            RatingErrorSpec::NotSupported {
                provider: pas_identity().id,
                reason: "native pricing calculation is required before PAS rating"@,
            },
        ),
        Some(p) => match checked_pricing(p) {
            Err(e) => Err(e),
            Ok((base, fin, currency, fs)) => {
                if req.risk.vehicle_value_cents is None {
                    Ok(
                        result_spec(
                            req,
                            RatingDecision::Quoted,
                            Some(
                                PremiumCalculationSpec {
                                    base_rate_micros: base,
                                    factors: fs,
                                    final_premium_cents: fin,
                                    currency,
                                },
                            ),
                            None,
                        ),
                    )
                } else {
                    let u = aggregate_spec(auto_factors(auto_profile_of(req.risk)));
                    match u.decision {
                        UnderwritingDecision::Declined => Ok(
                            result_spec(
                                req,
                                RatingDecision::Declined,
                                None,
                                Some(join_seq(u.reasons, "; "@)),
                            ),
                        ),
                        UnderwritingDecision::Referred => Ok(
                            result_spec(
                                req,
                                RatingDecision::Referred,
                                None,
                                Some(join_seq(u.reasons, "; "@)),
                            ),
                        ),
                        UnderwritingDecision::Quoted => Ok(
                            result_spec(
                                req,
                                RatingDecision::Quoted,
                                Some(
                                    PremiumCalculationSpec {
                                        base_rate_micros: base,
                                        factors: fs + u.factors,
                                        final_premium_cents: underwritten_cents(
                                            fin,
                                            u.risk_multiplier_ppm,
                                        ),
                                        currency,
                                    },
                                ),
                                None,
                            ),
                        ),
                    }
                }
            },
        },
    }
}

fn pricing_currency_exec(code: Option<String>) -> (r: Result<Currency, RatingError>)
    ensures
        (match r {
            Ok(c) => pricing_currency(code) == Ok::<Currency, RatingErrorSpec>(c),
            Err(e) => pricing_currency(code) == Err::<Currency, RatingErrorSpec>(e@),
        }),
{
    let raw = match &code {
        Some(s) => chars_of(s.as_str()),
        None => chars_of("USD"),
    };
    let up = ascii_uppercase_chars(&raw);
    if chars_eq_str(&up, "INR") {
        Ok(Currency::Inr)
    } else if chars_eq_str(&up, "USD") {
        Ok(Currency::Usd)
    } else if chars_eq_str(&up, "AED") {
        Ok(Currency::Aed)
    } else {
        let mut msg = String::from_str("unsupported pricing currency: ");
        let tail = string_of(&up);
        msg.append(tail.as_str());
        Err(RatingError::MappingFailed(msg))
    }
}

fn check_pricing(p: PricingEvidence) -> (r: Result<(i64, i64, Currency, Vec<RateFactor>), RatingError>)
    ensures
        (match r {
            Ok((b, f, c, fs)) => checked_pricing(p) == Ok::<
                (int, int, Currency, Seq<RateFactorSpec>),
                RatingErrorSpec,
            >((b as int, f as int, c, factors_view(fs@))),
            Err(e) => checked_pricing(p) == Err::<
                (int, int, Currency, Seq<RateFactorSpec>),
                RatingErrorSpec,
            >(e@),
        }),
{
    let ghost g = p;
    let PricingEvidence { base_rate_micros, final_premium_cents, currency, factors } = p;
    let base = match base_rate_micros {
        None => {
            return Err(RatingError::MappingFailed(String::from_str("pricing.base_rate is required")));
        },
        Some(b) => b,
    };
    let fin = match final_premium_cents {
        None => {
            return Err(
                RatingError::MappingFailed(String::from_str("pricing.final_premium is required")),
            );
        },
        Some(f) => f,
    };
    let (b, f) = match (base, fin) {
        (PricingAmount::Finite(b), PricingAmount::Finite(f)) => {
            if f <= 0 {
                return Err(
                    RatingError::MappingFailed(
                        String::from_str(
                            "native pricing values must be finite and final_premium must be positive",
                        ),
                    ),
                );
            }
            (b, f)
        },
        _ => {
            return Err(
                RatingError::MappingFailed(
                    String::from_str(
                        "native pricing values must be finite and final_premium must be positive",
                    ),
                ),
            );
        },
    };
    let c = match pricing_currency_exec(currency) {
        Ok(c) => c,
        Err(e) => {
            return Err(e);
        },
    };
    match factors {
        Ok(fs) => Ok((b, f, c, fs)),
        Err(e) => {
            let mut msg = String::from_str("pricing.factors: ");
            msg.append(e.as_str());
            Err(RatingError::MappingFailed(msg))
        },
    }
}

/// Native PAS rating adapter. Pricing stays with the pricing engine; this
/// provider checks that calculation, then runs it through deterministic
/// underwriting before promoting it into a decision.
pub struct PasProvider;

impl PasProvider {
    pub fn new() -> Self {
        PasProvider
    }
}

impl RatingProvider for PasProvider {
    /// Checks, in order: that pricing is present (else `NotSupported`), that
    /// base rate and final premium are present, finite and the premium
    /// positive, that the currency is INR, USD or AED in any ASCII case, and
    /// that the factors could be read (each else `MappingFailed`). A risk
    /// without a vehicle value is quoted at the priced premium; an Auto risk
    /// is underwritten and declined, referred (both with the reasons joined
    /// by "; " and no premium) or quoted with the underwriting factors
    /// appended and the premium multiplied by the risk multiplier.
    fn rate(&self, request: RatingRequest) -> (r: Result<RatingResult, RatingError>)
        ensures
            rating_outcome(r) == pas_rate(request),
    {
        let ghost req = request;
        let RatingRequest { carrier_id, product_id, state: _, risk } = request;
        let RiskData {
            pricing,
            customer_age,
            prior_claims_count,
            coverage_amount_cents,
            vehicle_value_cents,
        } = risk;
        let pricing = match pricing {
            None => {
                return Err(
                    RatingError::NotSupported {
                        provider: self.identity().id,
                        reason: String::from_str(
                            "native pricing calculation is required before PAS rating",
                        ),
                    },
                );
            },
            Some(p) => p,
        };
        let (base, fin, currency, mut factors) = match check_pricing(pricing) {
            Ok(t) => t,
            Err(e) => {
                return Err(e);
            },
        };
        if vehicle_value_cents.is_none() {
            return Ok(
                RatingResult {
                    decision: RatingDecision::Quoted,
                    premium: Some(
                        PremiumCalculation {
                            base_rate_micros: base as i128,
                            factors,
                            final_premium_cents: fin as i128,
                            currency,
                        },
                    ),
                    referral_reason: None,
                    carrier: carrier_id,
                    product: product_id,
                    provider: self.identity(),
                },
            );
        }
        let profile = AutoRiskProfile {
            driver_age: match customer_age {
                Some(a) => Some(a as u32),
                None => None,
            },
            prior_claims_5y: prior_claims_count,
            coverage_amount_cents,
            vehicle_value_cents,
        };
        assert(profile == auto_profile_of(req.risk));
        let u = evaluate_auto(&profile);
        match u.decision {
            UnderwritingDecision::Declined => {
                let reason = join_strings(&u.reasons, "; ");
                Ok(
                    RatingResult {
                        decision: RatingDecision::Declined,
                        premium: None,
                        referral_reason: Some(reason),
                        carrier: carrier_id,
                        product: product_id,
                        provider: self.identity(),
                    },
                )
            },
            UnderwritingDecision::Referred => {
                let reason = join_strings(&u.reasons, "; ");
                Ok(
                    RatingResult {
                        decision: RatingDecision::Referred,
                        premium: None,
                        referral_reason: Some(reason),
                        carrier: carrier_id,
                        product: product_id,
                        provider: self.identity(),
                    },
                )
            },
            UnderwritingDecision::Quoted => {
                let UnderwritingResult { risk_multiplier_ppm, factors: mut extra, .. } = u;
                let ghost priced = factors@;
                let ghost loaded = extra@;
                factors.append(&mut extra);
                assert(factors_view(factors@) =~= factors_view(priced) + factors_view(loaded));
                let m = risk_multiplier_ppm as i128;
                let f = fin as i128;
                assert(0 <= f * m <= 0x7fff_ffff_ffff_ffff * 16_000_000) by (nonlinear_arith)
                    requires
                        0 < f <= 0x7fff_ffff_ffff_ffff,
                        0 <= m <= 16_000_000,
                ;
                let premium = (f * m + 500_000) / 1_000_000;
                Ok(
                    RatingResult {
                        decision: RatingDecision::Quoted,
                        premium: Some(
                            PremiumCalculation {
                                base_rate_micros: base as i128,
                                factors,
                                final_premium_cents: premium,
                                currency,
                            },
                        ),
                        referral_reason: None,
                        carrier: carrier_id,
                        product: product_id,
                        provider: self.identity(),
                    },
                )
            },
        }
    }

    /// Whether the carrier is `pas` or `sagesure_pas`, in any ASCII case.
    fn supports(&self, request: &RatingRequest) -> (r: bool)
        ensures
            r == (eq_ignore_ascii_case_spec(request.carrier_id@, "pas"@)
                || eq_ignore_ascii_case_spec(request.carrier_id@, "sagesure_pas"@)),
    {
        eq_ignore_ascii_case(request.carrier_id.as_str(), "pas") || eq_ignore_ascii_case(
            request.carrier_id.as_str(),
            "sagesure_pas",
        )
    }

    fn identity(&self) -> (r: ProviderIdentity)
        ensures
            r@ == pas_identity(),
    {
        ProviderIdentity {
            id: String::from_str("pas:native:v1"),
            version: String::from_str("1.0.0"),
            execution_mode: ExecutionMode::Pas,
        }
    }
}

/// Only a quote carries a bindable premium, and a referral or decline
/// always says why: the reason is the underwriting reasons joined with
/// `; `, of which there is at least one.
pub proof fn lemma_only_quotes_carry_premiums(req: RatingRequest)
    ensures
        pas_rate(req) matches Ok(r) ==> (r.decision == RatingDecision::Quoted <==> r.premium is Some),
        pas_rate(req) matches Ok(r) ==> (r.decision == RatingDecision::Quoted
            <==> r.referral_reason is None),
        pas_rate(req) matches Ok(r) ==> (r.decision != RatingDecision::Quoted ==> (
        aggregate_spec(auto_factors(auto_profile_of(req.risk))).reasons.len() > 0
            && r.referral_reason == Some(
            join_seq(aggregate_spec(auto_factors(auto_profile_of(req.risk))).reasons, "; "@),
        ))),
        pas_rate(req) matches Ok(r) ==> r.decision != RatingDecision::Error,
{
    lemma_unquoted_results_carry_reasons(
        auto_profile_of(req.risk),
        PropertyRiskProfile { prior_claims_5y: None, coverage_amount_cents: None, property_value_cents: None },
        LifeRiskProfile { applicant_age: None, prior_claims_5y: None, coverage_amount_cents: None },
    );
}

/// The priced final premium of a request, in cents (zero when the
/// request carries no usable pricing).
pub open spec fn priced_cents(req: RatingRequest) -> int {
    match req.risk.pricing {
        Some(p) => match checked_pricing(p) {
            Ok(t) => t.1,
            Err(_) => 0,
        },
        None => 0,
    }
}

/// A quoted premium is never below the priced premium, which is positive:
/// no zero or discounted premium is ever quoted.
pub proof fn lemma_quoted_premium_never_below_pricing(req: RatingRequest)
    ensures
        pas_rate(req) matches Ok(r) ==> (r.premium matches Some(p) ==> (p.final_premium_cents
            >= priced_cents(req) && priced_cents(req) > 0)),
{
    lemma_underwriting_never_discounts(
        auto_profile_of(req.risk),
        PropertyRiskProfile { prior_claims_5y: None, coverage_amount_cents: None, property_value_cents: None },
        LifeRiskProfile { applicant_age: None, prior_claims_5y: None, coverage_amount_cents: None },
    );
    if let Some(p) = req.risk.pricing {
        if let Ok(t) = checked_pricing(p) {
            let m = aggregate_spec(auto_factors(auto_profile_of(req.risk))).risk_multiplier_ppm;
            let f = t.1;
            assert(underwritten_cents(f, m) >= f) by (nonlinear_arith)
                requires
                    f > 0,
                    m >= 1_000_000,
                    underwritten_cents(f, m) == (f * m + 500_000) / 1_000_000,
            ;
        }
    }
}

} // verus!
