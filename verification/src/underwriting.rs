//! Deterministic underwriting for Auto, Property and Life.
//!
//! Every factor is a fixed table keyed on one input and resolves on its own
//! to accept (with a rate loading), refer or decline. The aggregate decision
//! is decline over refer over quoted, so a single hard stop wins; a missing
//! input the table depends on refers or declines, never passes silently.
//! Amounts are in cents, rate loadings in parts per million.

use vstd::prelude::*;
use crate::insurance::{factors_view, opt_text, RateFactor, RateFactorSpec};
use crate::text::strings_view;
use crate::money::{push_ratio, push_signed, push_whole_units, ratio_at_most, ratio_at_most_exec, ratio_text, signed_text, whole_units_text};

verus! {

#[derive(Debug, Clone, Copy, PartialEq, Eq, Structural)]
pub enum FactorOutcome {
    Accept,
    Refer,
    Decline,
}

#[derive(Debug)]
pub struct FactorResult {
    pub factor: RateFactor,
    pub outcome: FactorOutcome,
    pub reason: Option<String>,
}

pub struct FactorSpec {
    pub factor: RateFactorSpec,
    pub outcome: FactorOutcome,
    pub reason: Option<Seq<char>>,
}

impl View for FactorResult {
    type V = FactorSpec;

    open spec fn view(&self) -> FactorSpec {
        FactorSpec { factor: self.factor@, outcome: self.outcome, reason: opt_text(self.reason) }
    }
}

#[derive(Debug, Clone, Copy, PartialEq, Eq, Structural)]
pub enum UnderwritingDecision {
    Quoted,
    Referred,
    Declined,
}

#[derive(Debug)]
pub struct UnderwritingResult {
    pub decision: UnderwritingDecision,
    /// Product of every factor's loading, in parts per million; one
    /// (1_000_000) unless the decision is `Quoted`.
    pub risk_multiplier_ppm: i64,
    pub factors: Vec<RateFactor>,
    pub reasons: Vec<String>,
}

pub struct UnderwritingSpec {
    pub decision: UnderwritingDecision,
    pub risk_multiplier_ppm: int,
    pub factors: Seq<RateFactorSpec>,
    pub reasons: Seq<Seq<char>>,
}

impl View for UnderwritingResult {
    type V = UnderwritingSpec;

    open spec fn view(&self) -> UnderwritingSpec {
        UnderwritingSpec {
            decision: self.decision,
            risk_multiplier_ppm: self.risk_multiplier_ppm as int,
            factors: factors_view(self.factors@),
            reasons: strings_view(self.reasons@),
        }
    }
}

pub open spec fn factor_spec(
    name: Seq<char>,
    value_ppm: int,
    description: Seq<char>,
    outcome: FactorOutcome,
    reason: Option<Seq<char>>,
) -> FactorSpec {
    FactorSpec {
        factor: RateFactorSpec { name, value_ppm, description: Some(description) },
        outcome,
        reason,
    }
}

fn make_factor(
    name: &str,
    value_ppm: i64,
    description: String,
    outcome: FactorOutcome,
    reason: Option<String>,
) -> (r: FactorResult)
    ensures
        r@ == factor_spec(name@, value_ppm as int, description@, outcome, opt_text(reason)),
{
    FactorResult {
        factor: RateFactor {
            name: String::from_str(name),
            value_ppm,
            description: Some(description),
        },
        outcome,
        reason,
    }
}

fn text(a: &str) -> (s: String)
    ensures
        s@ == a@,
{
    String::from_str(a)
}

fn text_count(a: &str, n: i64, b: &str) -> (s: String)
    ensures
        s@ == a@ + signed_text(n as int) + b@,
{
    let mut s = String::from_str(a);
    push_signed(&mut s, n);
    s.append(b);
    s
}

fn text_units(a: &str, cents: i64, b: &str) -> (s: String)
    ensures
        s@ == a@ + whole_units_text(cents as int) + b@,
{
    let mut s = String::from_str(a);
    push_whole_units(&mut s, cents);
    s.append(b);
    s
}

fn text_ratio(a: &str, c: i64, v: i64, b: &str) -> (s: String)
    requires
        v != 0,
    ensures
        s@ == a@ + ratio_text(c as int, v as int) + b@,
{
    let mut s = String::from_str(a);
    push_ratio(&mut s, c, v);
    s.append(b);
    s
}

// ── auto factors ───────────────────────────────────────────────────────────

/// Driver age: under 18 declines; 18–24 carries a 1.5 loading and refers
/// when more than $50,000 of coverage is requested; 25–70 is standard;
/// 71–80 carries 1.2; over 80 refers; a missing age refers.
pub open spec fn age_factor(age: Option<u32>, coverage_cents: Option<i64>) -> FactorSpec {
    let n = "driver_age"@;
    match age {
        None => factor_spec(
            n,
            1_000_000,
            "driver age not provided"@,
            FactorOutcome::Refer,
            Some("driver age is required to rate an auto risk"@),
        ),
        Some(a) => {
            let t = signed_text(a as int);
            if a < 18 {
                factor_spec(
                    n,
                    1_000_000,
                    "age "@ + t + " below minimum insurable age"@,
                    FactorOutcome::Decline,
                    Some("driver age "@ + t + " is below the minimum insurable age of 18"@),
                )
            } else if a <= 24 {
                let high = match coverage_cents {
                    Some(c) => c > 5_000_000,
                    None => false,
                };
                if high {
                    factor_spec(
                        n,
                        1_500_000,
                        "age "@ + t + ", high coverage requested"@,
                        FactorOutcome::Refer,
                        Some(
                            "young driver (age "@ + t
                                + ") requesting coverage above $50,000 requires manual review"@,
                        ),
                    )
                } else {
                    factor_spec(
                        n,
                        1_500_000,
                        "young driver surcharge, age "@ + t + ""@,
                        FactorOutcome::Accept,
                        None,
                    )
                }
            } else if a <= 70 {
                factor_spec(
                    n,
                    1_000_000,
                    "standard age band, age "@ + t + ""@,
                    FactorOutcome::Accept,
                    None,
                )
            } else if a <= 80 {
                factor_spec(
                    n,
                    1_200_000,
                    "senior surcharge, age "@ + t + ""@,
                    FactorOutcome::Accept,
                    None,
                )
            } else {
                factor_spec(
                    n,
                    1_200_000,
                    "age "@ + t + " above 80"@,
                    FactorOutcome::Refer,
                    Some(
                        "driver age "@ + t
                            + " is above 80 and requires senior-risk specialist review"@,
                    ),
                )
            }
        },
    }
}

pub fn evaluate_age(age: Option<u32>, coverage_cents: Option<i64>) -> (r: FactorResult)
    ensures
        r@ == age_factor(age, coverage_cents),
{
    match age {
        None => make_factor(
            "driver_age",
            1_000_000,
            text("driver age not provided"),
            FactorOutcome::Refer,
            Some(text("driver age is required to rate an auto risk")),
        ),
        Some(a) => {
            if a < 18 {
                make_factor(
                    "driver_age",
                    1_000_000,
                    text_count("age ", a as i64, " below minimum insurable age"),
                    FactorOutcome::Decline,
                    Some(
                        text_count(
                            "driver age ",
                            a as i64,
                            " is below the minimum insurable age of 18",
                        ),
                    ),
                )
            } else if a <= 24 {
                let high = match coverage_cents {
                    Some(c) => c > 5_000_000,
                    None => false,
                };
                if high {
                    make_factor(
                        "driver_age",
                        1_500_000,
                        text_count("age ", a as i64, ", high coverage requested"),
                        FactorOutcome::Refer,
                        Some(
                            text_count(
                                "young driver (age ",
                                a as i64,
                                ") requesting coverage above $50,000 requires manual review",
                            ),
                        ),
                    )
                } else {
                    make_factor(
                        "driver_age",
                        1_500_000,
                        text_count("young driver surcharge, age ", a as i64, ""),
                        FactorOutcome::Accept,
                        None,
                    )
                }
            } else if a <= 70 {
                make_factor(
                    "driver_age",
                    1_000_000,
                    text_count("standard age band, age ", a as i64, ""),
                    FactorOutcome::Accept,
                    None,
                )
            } else if a <= 80 {
                make_factor(
                    "driver_age",
                    1_200_000,
                    text_count("senior surcharge, age ", a as i64, ""),
                    FactorOutcome::Accept,
                    None,
                )
            } else {
                make_factor(
                    "driver_age",
                    1_200_000,
                    text_count("age ", a as i64, " above 80"),
                    FactorOutcome::Refer,
                    Some(
                        text_count(
                            "driver age ",
                            a as i64,
                            " is above 80 and requires senior-risk specialist review",
                        ),
                    ),
                )
            }
        },
    }
}

/// Claims in the last five years: none is standard, one carries 1.25, two
/// carry 1.6 and refer, any other count declines; an unknown history refers.
pub open spec fn claims_factor(count: Option<i64>) -> FactorSpec {
    let n = "prior_claims_5y"@;
    match count {
        None => factor_spec(
            n,
            1_000_000,
            "claims history unavailable"@,
            FactorOutcome::Refer,
            Some("prior claims history could not be verified"@),
        ),
        Some(c) => if c == 0 {
            factor_spec(n, 1_000_000, "no claims in last 5 years"@, FactorOutcome::Accept, None)
        } else if c == 1 {
            factor_spec(n, 1_250_000, "1 claim in last 5 years"@, FactorOutcome::Accept, None)
        } else if c == 2 {
            factor_spec(
                n,
                1_600_000,
                "2 claims in last 5 years"@,
                FactorOutcome::Refer,
                Some("2 claims in the last 5 years requires manual underwriter review"@),
            )
        } else {
            factor_spec(
                n,
                1_000_000,
                signed_text(c as int) + " claims in last 5 years"@,
                FactorOutcome::Decline,
                Some(
                    signed_text(c as int)
                        + " claims in the last 5 years exceeds the maximum of 2 for straight-through issuance"@,
                ),
            )
        },
    }
}

pub fn evaluate_prior_claims(count: Option<i64>) -> (r: FactorResult)
    ensures
        r@ == claims_factor(count),
{
    match count {
        None => make_factor(
            "prior_claims_5y",
            1_000_000,
            text("claims history unavailable"),
            FactorOutcome::Refer,
            Some(text("prior claims history could not be verified")),
        ),
        Some(c) => if c == 0 {
            make_factor(
                "prior_claims_5y",
                1_000_000,
                text("no claims in last 5 years"),
                FactorOutcome::Accept,
                None,
            )
        } else if c == 1 {
            make_factor(
                "prior_claims_5y",
                1_250_000,
                text("1 claim in last 5 years"),
                FactorOutcome::Accept,
                None,
            )
        } else if c == 2 {
            make_factor(
                "prior_claims_5y",
                1_600_000,
                text("2 claims in last 5 years"),
                FactorOutcome::Refer,
                Some(text("2 claims in the last 5 years requires manual underwriter review")),
            )
        } else {
            let d = text_count("", c, " claims in last 5 years");
            let r = text_count(
                "",
                c,
                " claims in the last 5 years exceeds the maximum of 2 for straight-through issuance",
            );
            proof {
                reveal_strlit("");
                assert(d@ =~= signed_text(c as int) + " claims in last 5 years"@);
                assert(r@ =~= signed_text(c as int)
                    + " claims in the last 5 years exceeds the maximum of 2 for straight-through issuance"@);
            }
            make_factor("prior_claims_5y", 1_000_000, d, FactorOutcome::Decline, Some(r))
        },
    }
}

/// Coverage against an insured value: a ratio up to 1.2 accepts, up to 1.5
/// refers as possible over-insurance, beyond that declines; a missing or
/// zero value refers. `what` names the insured object in the texts.
pub open spec fn ratio_factor(
    name: Seq<char>,
    what: Seq<char>,
    coverage_cents: Option<i64>,
    value_cents: Option<i64>,
) -> FactorSpec {
    let c = match coverage_cents {
        Some(x) => x as int,
        None => 0,
    };
    match value_cents {
        None => factor_spec(
            name,
            1_000_000,
            what + " not provided"@,
            FactorOutcome::Refer,
            Some(what + " is required to validate coverage against insurable interest"@),
        ),
        Some(v) => if v == 0 {
            factor_spec(
                name,
                1_000_000,
                what + " not provided"@,
                FactorOutcome::Refer,
                Some(what + " is required to validate coverage against insurable interest"@),
            )
        } else {
            let t = ratio_text(c, v as int);
            if ratio_at_most(c, v as int, 6, 5) {
                factor_spec(name, 1_000_000, "ratio "@ + t + ""@, FactorOutcome::Accept, None)
            } else if ratio_at_most(c, v as int, 3, 2) {
                factor_spec(
                    name,
                    1_000_000,
                    "ratio "@ + t + ""@,
                    FactorOutcome::Refer,
                    Some(
                        "requested coverage is "@ + t + "x "@ + what
                            + "; possible over-insurance requires review"@,
                    ),
                )
            } else {
                factor_spec(
                    name,
                    1_000_000,
                    "ratio "@ + t + ""@,
                    FactorOutcome::Decline,
                    Some(
                        "requested coverage is "@ + t + "x "@ + what
                            + ", exceeding the 1.5x insurable-interest limit"@,
                    ),
                )
            }
        },
    }
}

pub fn evaluate_ratio(name: &str, what: &str, coverage_cents: Option<i64>, value_cents: Option<
    i64,
>) -> (r: FactorResult)
    ensures
        r@ == ratio_factor(name@, what@, coverage_cents, value_cents),
{
    let c: i64 = match coverage_cents {
        Some(x) => x,
        None => 0,
    };
    let v: i64 = match value_cents {
        Some(x) => x,
        None => 0,
    };
    if v == 0 {
        let mut d = String::from_str(what);
        d.append(" not provided");
        let mut r = String::from_str(what);
        r.append(" is required to validate coverage against insurable interest");
        return make_factor(name, 1_000_000, d, FactorOutcome::Refer, Some(r));
    }
    let d = text_ratio("ratio ", c, v, "");
    if ratio_at_most_exec(c, v, 6, 5) {
        make_factor(name, 1_000_000, d, FactorOutcome::Accept, None)
    } else if ratio_at_most_exec(c, v, 3, 2) {
        let mut r = text_ratio("requested coverage is ", c, v, "x ");
        r.append(what);
        r.append("; possible over-insurance requires review");
        make_factor(name, 1_000_000, d, FactorOutcome::Refer, Some(r))
    } else {
        let mut r = text_ratio("requested coverage is ", c, v, "x ");
        r.append(what);
        r.append(", exceeding the 1.5x insurable-interest limit");
        make_factor(name, 1_000_000, d, FactorOutcome::Decline, Some(r))
    }
}

/// Vehicle value band: up to $75,000 standard, up to $150,000 a 1.35 loading,
/// beyond that 1.35 and a referral; a missing value is left to the ratio
/// check and accepted here.
pub open spec fn vehicle_band_factor(value_cents: Option<i64>) -> FactorSpec {
    let n = "vehicle_value_band"@;
    match value_cents {
        None => factor_spec(
            n,
            1_000_000,
            "vehicle value not provided"@,
            FactorOutcome::Accept,
            None,
        ),
        Some(v) => if v == 0 {
            factor_spec(
                n,
                1_000_000,
                "vehicle value not provided"@,
                FactorOutcome::Accept,
                None,
            )
        } else if v <= 7_500_000 {
            factor_spec(n, 1_000_000, "standard risk class"@, FactorOutcome::Accept, None)
        } else if v <= 15_000_000 {
            factor_spec(
                n,
                1_350_000,
                "high-value vehicle, $"@ + whole_units_text(v as int) + ""@,
                FactorOutcome::Accept,
                None,
            )
        } else {
            factor_spec(
                n,
                1_350_000,
                "vehicle value $"@ + whole_units_text(v as int) + " above $150,000"@,
                FactorOutcome::Refer,
                Some(
                    "vehicle value $"@ + whole_units_text(v as int)
                        + " exceeds $150,000 and requires specialist review"@,
                ),
            )
        },
    }
}

pub fn evaluate_vehicle_value_band(value_cents: Option<i64>) -> (r: FactorResult)
    ensures
        r@ == vehicle_band_factor(value_cents),
{
    let v: i64 = match value_cents {
        Some(x) => x,
        None => 0,
    };
    if v == 0 {
        make_factor(
            "vehicle_value_band",
            1_000_000,
            text("vehicle value not provided"),
            FactorOutcome::Accept,
            None,
        )
    } else if v <= 7_500_000 {
        make_factor(
            "vehicle_value_band",
            1_000_000,
            text("standard risk class"),
            FactorOutcome::Accept,
            None,
        )
    } else if v <= 15_000_000 {
        make_factor(
            "vehicle_value_band",
            1_350_000,
            text_units("high-value vehicle, $", v, ""),
            FactorOutcome::Accept,
            None,
        )
    } else {
        make_factor(
            "vehicle_value_band",
            1_350_000,
            text_units("vehicle value $", v, " above $150,000"),
            FactorOutcome::Refer,
            Some(text_units("vehicle value $", v, " exceeds $150,000 and requires specialist review")),
        )
    }
}

// ── life factors ───────────────────────────────────────────────────────────

/// Applicant age: under 18 declines, 18–65 standard, 66–75 a 1.4 loading,
/// 76–85 refers, over 85 declines; a missing age refers.
pub open spec fn life_age_factor(age: Option<u32>) -> FactorSpec {
    let n = "applicant_age"@;
    match age {
        None => factor_spec(
            n,
            1_000_000,
            "applicant age not provided"@,
            FactorOutcome::Refer,
            Some("applicant age is required to rate a life risk"@),
        ),
        Some(a) => {
            let t = signed_text(a as int);
            if a < 18 {
                factor_spec(
                    n,
                    1_000_000,
                    "age "@ + t + " below minimum insurable age"@,
                    FactorOutcome::Decline,
                    Some("applicant age "@ + t + " is below the minimum insurable age of 18"@),
                )
            } else if a <= 65 {
                factor_spec(
                    n,
                    1_000_000,
                    "standard age band, age "@ + t + ""@,
                    FactorOutcome::Accept,
                    None,
                )
            } else if a <= 75 {
                factor_spec(
                    n,
                    1_400_000,
                    "senior surcharge, age "@ + t + ""@,
                    FactorOutcome::Accept,
                    None,
                )
            } else if a <= 85 {
                factor_spec(
                    n,
                    1_400_000,
                    "age "@ + t + " above 75"@,
                    FactorOutcome::Refer,
                    Some(
                        "applicant age "@ + t
                            + " is above 75 and requires medical underwriting review"@,
                    ),
                )
            } else {
                factor_spec(
                    n,
                    1_400_000,
                    "age "@ + t + " above 85"@,
                    FactorOutcome::Decline,
                    Some(
                        "applicant age "@ + t
                            + " is above 85 and exceeds this line's insurable age limit"@,
                    ),
                )
            }
        },
    }
}

pub fn evaluate_life_age(age: Option<u32>) -> (r: FactorResult)
    ensures
        r@ == life_age_factor(age),
{
    match age {
        None => make_factor(
            "applicant_age",
            1_000_000,
            text("applicant age not provided"),
            FactorOutcome::Refer,
            Some(text("applicant age is required to rate a life risk")),
        ),
        Some(a) => {
            if a < 18 {
                make_factor(
                    "applicant_age",
                    1_000_000,
                    text_count("age ", a as i64, " below minimum insurable age"),
                    FactorOutcome::Decline,
                    Some(
                        text_count(
                            "applicant age ",
                            a as i64,
                            " is below the minimum insurable age of 18",
                        ),
                    ),
                )
            } else if a <= 65 {
                make_factor(
                    "applicant_age",
                    1_000_000,
                    text_count("standard age band, age ", a as i64, ""),
                    FactorOutcome::Accept,
                    None,
                )
            } else if a <= 75 {
                make_factor(
                    "applicant_age",
                    1_400_000,
                    text_count("senior surcharge, age ", a as i64, ""),
                    FactorOutcome::Accept,
                    None,
                )
            } else if a <= 85 {
                make_factor(
                    "applicant_age",
                    1_400_000,
                    text_count("age ", a as i64, " above 75"),
                    FactorOutcome::Refer,
                    Some(
                        text_count(
                            "applicant age ",
                            a as i64,
                            " is above 75 and requires medical underwriting review",
                        ),
                    ),
                )
            } else {
                make_factor(
                    "applicant_age",
                    1_400_000,
                    text_count("age ", a as i64, " above 85"),
                    FactorOutcome::Decline,
                    Some(
                        text_count(
                            "applicant age ",
                            a as i64,
                            " is above 85 and exceeds this line's insurable age limit",
                        ),
                    ),
                )
            }
        },
    }
}

/// Face amount: up to $250,000 guaranteed issue, up to $1,000,000 refers
/// for medical underwriting, beyond that declines; a missing or zero amount
/// refers.
pub open spec fn life_coverage_factor(amount_cents: Option<i64>) -> FactorSpec {
    let n = "coverage_band"@;
    let none = factor_spec(
        n,
        1_000_000,
        "coverage amount not provided"@,
        FactorOutcome::Refer,
        Some("coverage amount is required to rate a life risk"@),
    );
    match amount_cents {
        None => none,
        Some(a) => {
            let t = whole_units_text(a as int);
            if a == 0 {
                none
            } else if a <= 25_000_000 {
                factor_spec(
                    n,
                    1_000_000,
                    "guaranteed-issue band, $"@ + t + ""@,
                    FactorOutcome::Accept,
                    None,
                )
            } else if a <= 100_000_000 {
                factor_spec(
                    n,
                    1_000_000,
                    "$"@ + t + " above guaranteed-issue limit"@,
                    FactorOutcome::Refer,
                    Some(
                        "requested coverage $"@ + t
                            + " exceeds the $250,000 guaranteed-issue limit and requires medical underwriting"@,
                    ),
                )
            } else {
                factor_spec(
                    n,
                    1_000_000,
                    "$"@ + t + " above $1,000,000"@,
                    FactorOutcome::Decline,
                    Some(
                        "requested coverage $"@ + t
                            + " exceeds $1,000,000 and requires specialist reinsurance placement"@,
                    ),
                )
            }
        },
    }
}

pub fn evaluate_life_coverage_band(amount_cents: Option<i64>) -> (r: FactorResult)
    ensures
        r@ == life_coverage_factor(amount_cents),
{
    let a: i64 = match amount_cents {
        Some(x) => x,
        None => 0,
    };
    if a == 0 {
        make_factor(
            "coverage_band",
            1_000_000,
            text("coverage amount not provided"),
            FactorOutcome::Refer,
            Some(text("coverage amount is required to rate a life risk")),
        )
    } else if a <= 25_000_000 {
        make_factor(
            "coverage_band",
            1_000_000,
            text_units("guaranteed-issue band, $", a, ""),
            FactorOutcome::Accept,
            None,
        )
    } else if a <= 100_000_000 {
        make_factor(
            "coverage_band",
            1_000_000,
            text_units("$", a, " above guaranteed-issue limit"),
            FactorOutcome::Refer,
            Some(
                text_units(
                    "requested coverage $",
                    a,
                    " exceeds the $250,000 guaranteed-issue limit and requires medical underwriting",
                ),
            ),
        )
    } else {
        make_factor(
            "coverage_band",
            1_000_000,
            text_units("$", a, " above $1,000,000"),
            FactorOutcome::Decline,
            Some(
                text_units(
                    "requested coverage $",
                    a,
                    " exceeds $1,000,000 and requires specialist reinsurance placement",
                ),
            ),
        )
    }
}

// ── aggregation ────────────────────────────────────────────────────────────

pub open spec fn has_outcome(rs: Seq<FactorSpec>, o: FactorOutcome) -> bool {
    exists|i: int| 0 <= i < rs.len() && #[trigger] rs[i].outcome == o
}

/// The reasons of the factors with outcome `o`, in factor order (factors
/// without a reason contribute none).
pub open spec fn reasons_for(rs: Seq<FactorSpec>, o: FactorOutcome) -> Seq<Seq<char>>
    decreases rs.len(),
{
    if rs.len() == 0 {
        seq![]
    } else {
        let prev = reasons_for(rs.drop_last(), o);
        let last = rs.last();
        if last.outcome == o && last.reason is Some {
            prev.push(last.reason->0)
        } else {
            prev
        }
    }
}

/// The loadings multiplied together in fixed point: each step keeps whole
/// parts per million, rounding down.
pub open spec fn product_ppm(rs: Seq<FactorSpec>) -> int
    decreases rs.len(),
{
    if rs.len() == 0 {
        1_000_000
    } else {
        product_ppm(rs.drop_last()) * rs.last().factor.value_ppm / 1_000_000
    }
}

/// Decline over refer over quoted; the multiplier is the product of all
/// loadings when quoted and one otherwise; every factor is reported.
pub open spec fn aggregate_spec(rs: Seq<FactorSpec>) -> UnderwritingSpec {
    let factors = rs.map_values(|f: FactorSpec| f.factor);
    if has_outcome(rs, FactorOutcome::Decline) {
        UnderwritingSpec {
            decision: UnderwritingDecision::Declined,
            risk_multiplier_ppm: 1_000_000,
            factors,
            reasons: reasons_for(rs, FactorOutcome::Decline),
        }
    } else if has_outcome(rs, FactorOutcome::Refer) {
        UnderwritingSpec {
            decision: UnderwritingDecision::Referred,
            risk_multiplier_ppm: 1_000_000,
            factors,
            reasons: reasons_for(rs, FactorOutcome::Refer),
        }
    } else {
        UnderwritingSpec {
            decision: UnderwritingDecision::Quoted,
            risk_multiplier_ppm: product_ppm(rs),
            factors,
            reasons: seq![],
        }
    }
}

pub open spec fn loadings_bounded(rs: Seq<FactorSpec>) -> bool {
    forall|i: int| 0 <= i < rs.len() ==> 0 <= #[trigger] rs[i].factor.value_ppm <= 2_000_000
}

proof fn lemma_product_bound(rs: Seq<FactorSpec>)
    requires
        loadings_bounded(rs),
        rs.len() <= 4,
    ensures
        0 <= product_ppm(rs) <= vstd::arithmetic::power2::pow2(rs.len() as nat) * 1_000_000,
    decreases rs.len(),
{
    vstd::arithmetic::power2::lemma2_to64();
    if rs.len() > 0 {
        let prev = rs.drop_last();
        assert(loadings_bounded(prev)) by {
            assert forall|i: int| 0 <= i < prev.len() implies 0 <= #[trigger] prev[i].factor.value_ppm
                <= 2_000_000 by {
                assert(prev[i] == rs[i]);
            }
        }
        lemma_product_bound(prev);
        let p = product_ppm(prev);
        let v = rs.last().factor.value_ppm;
        assert(0 <= v <= 2_000_000) by {
            assert(rs.last() == rs[rs.len() - 1]);
        }
        let b = vstd::arithmetic::power2::pow2(prev.len() as nat) * 1_000_000;
        assert(0 <= p * v / 1_000_000 <= 2 * b) by (nonlinear_arith)
            requires
                0 <= p <= b,
                0 <= v <= 2_000_000,
        ;
        vstd::arithmetic::power2::lemma_pow2_unfold(rs.len() as nat);
    }
}

fn clone_rate_factor(f: &RateFactor) -> (r: RateFactor)
    ensures
        r == *f,
{
    f.clone()
}

pub open spec fn results_view(v: Seq<FactorResult>) -> Seq<FactorSpec> {
    v.map_values(|r: FactorResult| r@)
}

/// Loadings are multipliers, never below zero.
pub open spec fn loadings_nonneg(rs: Seq<FactorSpec>) -> bool {
    forall|i: int| 0 <= i < rs.len() ==> 0 <= #[trigger] rs[i].factor.value_ppm
}

/// Every running product of the loadings fits the multiplier's `i64`.
pub open spec fn products_fit(rs: Seq<FactorSpec>) -> bool {
    forall|k: int| 0 <= k <= rs.len() ==> #[trigger] product_ppm(rs.subrange(0, k)) <= i64::MAX
}

proof fn lemma_product_nonneg(rs: Seq<FactorSpec>)
    requires
        loadings_nonneg(rs),
    ensures
        0 <= product_ppm(rs),
    decreases rs.len(),
{
    if rs.len() > 0 {
        let prev = rs.drop_last();
        assert(loadings_nonneg(prev)) by {
            assert forall|i: int| 0 <= i < prev.len() implies 0 <= #[trigger] prev[i].factor.value_ppm by {
                assert(prev[i] == rs[i]);
            }
        }
        lemma_product_nonneg(prev);
        let p = product_ppm(prev);
        let v = rs.last().factor.value_ppm;
        assert(0 <= v) by {
            assert(rs.last() == rs[rs.len() - 1]);
        }
        assert(0 <= p * v / 1_000_000) by (nonlinear_arith)
            requires
                0 <= p,
                0 <= v,
        ;
    }
}

/// At most four loadings of at most two fit, with room to spare.
proof fn lemma_small_lists_fit(rs: Seq<FactorSpec>)
    requires
        rs.len() <= 4,
        loadings_bounded(rs),
    ensures
        loadings_nonneg(rs),
        products_fit(rs),
        0 <= product_ppm(rs) <= 16_000_000,
{
    vstd::arithmetic::power2::lemma2_to64();
    assert forall|k: int| 0 <= k <= rs.len() implies #[trigger] product_ppm(rs.subrange(0, k))
        <= i64::MAX by {
        let pre = rs.subrange(0, k);
        assert(loadings_bounded(pre)) by {
            assert forall|i: int| 0 <= i < pre.len() implies 0 <= #[trigger] pre[i].factor.value_ppm
                <= 2_000_000 by {
                assert(pre[i] == rs[i]);
            }
        }
        lemma_product_bound(pre);
    }
    lemma_product_bound(rs);
}

/// Combines the factors' verdicts: any decline declines the risk (with
/// the declining factors' reasons, multiplier one), else any referral
/// refers it (with the referring factors' reasons, multiplier one), else
/// it is quoted at the product of all loadings; every factor is reported
/// in order. Defined where every running product of the loadings fits
/// the multiplier.
pub fn aggregate(results: Vec<FactorResult>) -> (r: UnderwritingResult)
    requires
        loadings_nonneg(results_view(results@)),
        products_fit(results_view(results@)),
    ensures
        r@ == aggregate_spec(results_view(results@)),
{
    let ghost rs = results_view(results@);
    let mut factors: Vec<RateFactor> = Vec::new();
    let mut declined: Vec<String> = Vec::new();
    let mut referred: Vec<String> = Vec::new();
    let mut any_decline = false;
    let mut any_refer = false;
    let mut product: i64 = 1_000_000;
    let mut i: usize = 0;
    assert(rs.subrange(0, 0) =~= Seq::<FactorSpec>::empty());
    while i < results.len()
        invariant
            i <= results@.len(),
            rs == results_view(results@),
            loadings_nonneg(rs),
            products_fit(rs),
            0 <= product,
            factors_view(factors@) == rs.subrange(0, i as int).map_values(
                |f: FactorSpec| f.factor,
            ),
            strings_view(declined@) == reasons_for(rs.subrange(0, i as int), FactorOutcome::Decline),
            strings_view(referred@) == reasons_for(rs.subrange(0, i as int), FactorOutcome::Refer),
            any_decline == has_outcome(rs.subrange(0, i as int), FactorOutcome::Decline),
            any_refer == has_outcome(rs.subrange(0, i as int), FactorOutcome::Refer),
            product == product_ppm(rs.subrange(0, i as int)),
        decreases results.len() - i,
    {
        let ghost pre = rs.subrange(0, i as int);
        let ghost cur = rs.subrange(0, i + 1);
        assert(cur.drop_last() =~= pre);
        assert(cur.last() == rs[i as int]);
        assert(rs[i as int] == results@[i as int]@);
        let res = &results[i];
        assert(*res == results@[i as int]);
        let ghost old_factors = factors@;
        factors.push(clone_rate_factor(&res.factor));
        assert(factors@ == old_factors.push(results@[i as int].factor));
        assert(cur.map_values(|f: FactorSpec| f.factor) =~= pre.map_values(|f: FactorSpec| f.factor).push(
            results@[i as int].factor@,
        ));
        assert(factors_view(factors@) =~= factors_view(old_factors).push(results@[i as int].factor@));
        assert(factors_view(factors@) =~= cur.map_values(|f: FactorSpec| f.factor));
        let v = res.factor.value_ppm;
        assert(0 <= v) by {
            assert(rs[i as int].factor.value_ppm == v);
        }
        assert(product_ppm(cur) == product * v / 1_000_000);
        assert(product_ppm(rs.subrange(0, i + 1)) <= i64::MAX);
        assert(0 <= (product as int) * (v as int) <= 0x7fff_ffff_ffff_ffff * 0x7fff_ffff_ffff_ffff)
            by (nonlinear_arith)
            requires
                0 <= product <= 0x7fff_ffff_ffff_ffff,
                0 <= v <= 0x7fff_ffff_ffff_ffff,
        ;
        let wide: i128 = (product as i128) * (v as i128) / 1_000_000;
        product = wide as i64;
        match res.outcome {
            FactorOutcome::Decline => {
                any_decline = true;
                if let Some(reason) = &res.reason {
                    declined.push(reason.clone());
                }
            },
            FactorOutcome::Refer => {
                any_refer = true;
                if let Some(reason) = &res.reason {
                    referred.push(reason.clone());
                }
            },
            FactorOutcome::Accept => {},
        }
        assert(strings_view(declined@) =~= reasons_for(cur, FactorOutcome::Decline));
        assert(strings_view(referred@) =~= reasons_for(cur, FactorOutcome::Refer));
        assert(any_decline == has_outcome(cur, FactorOutcome::Decline)) by {
            if has_outcome(cur, FactorOutcome::Decline) && !has_outcome(
                pre,
                FactorOutcome::Decline,
            ) {
                let k = choose|k: int| 0 <= k < cur.len() && #[trigger] cur[k].outcome
                    == FactorOutcome::Decline;
                if k < i {
                    assert(pre[k] == cur[k]);
                }
            }
            if has_outcome(pre, FactorOutcome::Decline) {
                let k = choose|k: int| 0 <= k < pre.len() && #[trigger] pre[k].outcome
                    == FactorOutcome::Decline;
                assert(cur[k] == pre[k]);
            }
        }
        assert(any_refer == has_outcome(cur, FactorOutcome::Refer)) by {
            if has_outcome(cur, FactorOutcome::Refer) && !has_outcome(pre, FactorOutcome::Refer) {
                let k = choose|k: int| 0 <= k < cur.len() && #[trigger] cur[k].outcome
                    == FactorOutcome::Refer;
                if k < i {
                    assert(pre[k] == cur[k]);
                }
            }
            if has_outcome(pre, FactorOutcome::Refer) {
                let k = choose|k: int| 0 <= k < pre.len() && #[trigger] pre[k].outcome
                    == FactorOutcome::Refer;
                assert(cur[k] == pre[k]);
            }
        }
        i = i + 1;
    }
    assert(rs.subrange(0, rs.len() as int) =~= rs);
    if any_decline {
        UnderwritingResult {
            decision: UnderwritingDecision::Declined,
            risk_multiplier_ppm: 1_000_000,
            factors,
            reasons: declined,
        }
    } else if any_refer {
        UnderwritingResult {
            decision: UnderwritingDecision::Referred,
            risk_multiplier_ppm: 1_000_000,
            factors,
            reasons: referred,
        }
    } else {
        let r = UnderwritingResult {
            decision: UnderwritingDecision::Quoted,
            risk_multiplier_ppm: product,
            factors,
            reasons: Vec::new(),
        };
        assert(strings_view(r.reasons@) =~= seq![]);
        r
    }
}

// ── the three lines ────────────────────────────────────────────────────────

/// The inputs Auto underwriting evaluates. Every field is optional because
/// upstream data can be missing.
#[derive(Debug, Clone, Copy, Default)]
pub struct AutoRiskProfile {
    pub driver_age: Option<u32>,
    /// Claims filed in the last five years.
    pub prior_claims_5y: Option<i64>,
    pub coverage_amount_cents: Option<i64>,
    pub vehicle_value_cents: Option<i64>,
}

/// The inputs Property underwriting evaluates.
#[derive(Debug, Clone, Copy, Default)]
pub struct PropertyRiskProfile {
    pub prior_claims_5y: Option<i64>,
    pub coverage_amount_cents: Option<i64>,
    pub property_value_cents: Option<i64>,
}

/// The inputs Life underwriting evaluates.
#[derive(Debug, Clone, Copy, Default)]
pub struct LifeRiskProfile {
    pub applicant_age: Option<u32>,
    pub prior_claims_5y: Option<i64>,
    pub coverage_amount_cents: Option<i64>,
}

pub open spec fn auto_factors(p: AutoRiskProfile) -> Seq<FactorSpec> {
    seq![
        age_factor(p.driver_age, p.coverage_amount_cents),
        claims_factor(p.prior_claims_5y),
        ratio_factor(
            "coverage_to_value_ratio"@,
            "vehicle value"@,
            p.coverage_amount_cents,
            p.vehicle_value_cents,
        ),
        vehicle_band_factor(p.vehicle_value_cents),
    ]
}

pub open spec fn property_factors(p: PropertyRiskProfile) -> Seq<FactorSpec> {
    seq![
        claims_factor(p.prior_claims_5y),
        ratio_factor(
            "coverage_to_property_value_ratio"@,
            "property value"@,
            p.coverage_amount_cents,
            p.property_value_cents,
        ),
    ]
}

pub open spec fn life_factors(p: LifeRiskProfile) -> Seq<FactorSpec> {
    seq![
        life_age_factor(p.applicant_age),
        claims_factor(p.prior_claims_5y),
        life_coverage_factor(p.coverage_amount_cents),
    ]
}

/// Evaluates driver age, claims history, coverage-to-value ratio and
/// vehicle value band, in that order, and aggregates them.
pub fn evaluate_auto(profile: &AutoRiskProfile) -> (r: UnderwritingResult)
    ensures
        r@ == aggregate_spec(auto_factors(*profile)),
        0 <= r.risk_multiplier_ppm <= 16_000_000,
{
    let mut v: Vec<FactorResult> = Vec::new();
    v.push(evaluate_age(profile.driver_age, profile.coverage_amount_cents));
    v.push(evaluate_prior_claims(profile.prior_claims_5y));
    v.push(
        evaluate_ratio(
            "coverage_to_value_ratio",
            "vehicle value",
            profile.coverage_amount_cents,
            profile.vehicle_value_cents,
        ),
    );
    v.push(evaluate_vehicle_value_band(profile.vehicle_value_cents));
    assert(results_view(v@) =~= auto_factors(*profile));
    proof {
        lemma_small_lists_fit(results_view(v@));
    }
    aggregate(v)
}

/// Evaluates claims history and coverage-to-property-value ratio, in that
/// order, and aggregates them.
pub fn evaluate_property(profile: &PropertyRiskProfile) -> (r: UnderwritingResult)
    ensures
        r@ == aggregate_spec(property_factors(*profile)),
        0 <= r.risk_multiplier_ppm <= 16_000_000,
{
    let mut v: Vec<FactorResult> = Vec::new();
    v.push(evaluate_prior_claims(profile.prior_claims_5y));
    v.push(
        evaluate_ratio(
            "coverage_to_property_value_ratio",
            "property value",
            profile.coverage_amount_cents,
            profile.property_value_cents,
        ),
    );
    assert(results_view(v@) =~= property_factors(*profile));
    proof {
        lemma_small_lists_fit(results_view(v@));
    }
    aggregate(v)
}

/// Evaluates applicant age, claims history and face amount, in that order,
/// and aggregates them.
pub fn evaluate_life(profile: &LifeRiskProfile) -> (r: UnderwritingResult)
    ensures
        r@ == aggregate_spec(life_factors(*profile)),
        0 <= r.risk_multiplier_ppm <= 16_000_000,
{
    let mut v: Vec<FactorResult> = Vec::new();
    v.push(evaluate_life_age(profile.applicant_age));
    v.push(evaluate_prior_claims(profile.prior_claims_5y));
    v.push(evaluate_life_coverage_band(profile.coverage_amount_cents));
    assert(results_view(v@) =~= life_factors(*profile));
    proof {
        lemma_small_lists_fit(results_view(v@));
    }
    aggregate(v)
}

// ── laws ───────────────────────────────────────────────────────────────────

/// Decline beats refer beats quoted: any single declining factor declines
/// the risk, whatever the others say, with the declining factors' reasons
/// in order; otherwise any referring factor refers it, with the referring
/// factors' reasons. The multiplier is one unless the risk is quoted, and
/// then it is the product of all loadings, with no reasons. Every factor is
/// reported, in order.
pub proof fn lemma_decline_beats_refer_beats_quote(rs: Seq<FactorSpec>)
    ensures
        aggregate_spec(rs).decision == UnderwritingDecision::Declined <==> has_outcome(
            rs,
            FactorOutcome::Decline,
        ),
        aggregate_spec(rs).decision == UnderwritingDecision::Referred <==> (!has_outcome(
            rs,
            FactorOutcome::Decline,
        ) && has_outcome(rs, FactorOutcome::Refer)),
        aggregate_spec(rs).decision == UnderwritingDecision::Quoted <==> (forall|i: int|
            0 <= i < rs.len() ==> #[trigger] rs[i].outcome == FactorOutcome::Accept),
        aggregate_spec(rs).decision != UnderwritingDecision::Quoted ==> aggregate_spec(
            rs,
        ).risk_multiplier_ppm == 1_000_000,
        aggregate_spec(rs).decision == UnderwritingDecision::Quoted ==> aggregate_spec(
            rs,
        ).risk_multiplier_ppm == product_ppm(rs) && aggregate_spec(rs).reasons.len() == 0,
        aggregate_spec(rs).decision == UnderwritingDecision::Declined ==> aggregate_spec(rs).reasons
            == reasons_for(rs, FactorOutcome::Decline),
        aggregate_spec(rs).decision == UnderwritingDecision::Referred ==> aggregate_spec(rs).reasons
            == reasons_for(rs, FactorOutcome::Refer),
        aggregate_spec(rs).factors.len() == rs.len(),
        forall|i: int| 0 <= i < rs.len() ==> #[trigger] aggregate_spec(rs).factors[i] == rs[i].factor,
{
    if !(forall|i: int| 0 <= i < rs.len() ==> #[trigger] rs[i].outcome == FactorOutcome::Accept) {
        let i = choose|i: int| 0 <= i < rs.len() && rs[i].outcome != FactorOutcome::Accept;
        if rs[i].outcome == FactorOutcome::Decline {
            assert(has_outcome(rs, FactorOutcome::Decline));
        } else {
            assert(has_outcome(rs, FactorOutcome::Refer));
        }
    }
}

pub open spec fn outcome_reasons_present(rs: Seq<FactorSpec>) -> bool {
    forall|i: int|
        0 <= i < rs.len() && #[trigger] rs[i].outcome != FactorOutcome::Accept ==> rs[i].reason
            is Some
}

proof fn lemma_reasons_nonempty(rs: Seq<FactorSpec>, o: FactorOutcome)
    requires
        has_outcome(rs, o),
        outcome_reasons_present(rs),
        o != FactorOutcome::Accept,
    ensures
        reasons_for(rs, o).len() > 0,
    decreases rs.len(),
{
    let last = rs.last();
    assert(last == rs[rs.len() - 1]);
    if !(last.outcome == o) {
        let prev = rs.drop_last();
        let k = choose|k: int| 0 <= k < rs.len() && #[trigger] rs[k].outcome == o;
        assert(prev[k] == rs[k]);
        assert(has_outcome(prev, o));
        assert(outcome_reasons_present(prev)) by {
            assert forall|j: int|
                0 <= j < prev.len() && #[trigger] prev[j].outcome
                    != FactorOutcome::Accept implies prev[j].reason is Some by {
                assert(prev[j] == rs[j]);
            }
        }
        lemma_reasons_nonempty(prev, o);
    }
}

/// A risk that is not quoted always says why: referred and declined
/// results carry at least one reason, on every line.
pub proof fn lemma_unquoted_results_carry_reasons(
    auto: AutoRiskProfile,
    property: PropertyRiskProfile,
    life: LifeRiskProfile,
)
    ensures
        aggregate_spec(auto_factors(auto)).decision != UnderwritingDecision::Quoted
            ==> aggregate_spec(auto_factors(auto)).reasons.len() > 0,
        aggregate_spec(property_factors(property)).decision != UnderwritingDecision::Quoted
            ==> aggregate_spec(property_factors(property)).reasons.len() > 0,
        aggregate_spec(life_factors(life)).decision != UnderwritingDecision::Quoted
            ==> aggregate_spec(life_factors(life)).reasons.len() > 0,
{
    let a = auto_factors(auto);
    let p = property_factors(property);
    let l = life_factors(life);
    assert(outcome_reasons_present(a));
    assert(outcome_reasons_present(p));
    assert(outcome_reasons_present(l));
    if has_outcome(a, FactorOutcome::Decline) {
        lemma_reasons_nonempty(a, FactorOutcome::Decline);
    } else if has_outcome(a, FactorOutcome::Refer) {
        lemma_reasons_nonempty(a, FactorOutcome::Refer);
    }
    if has_outcome(p, FactorOutcome::Decline) {
        lemma_reasons_nonempty(p, FactorOutcome::Decline);
    } else if has_outcome(p, FactorOutcome::Refer) {
        lemma_reasons_nonempty(p, FactorOutcome::Refer);
    }
    if has_outcome(l, FactorOutcome::Decline) {
        lemma_reasons_nonempty(l, FactorOutcome::Decline);
    } else if has_outcome(l, FactorOutcome::Refer) {
        lemma_reasons_nonempty(l, FactorOutcome::Refer);
    }
}

/// Every factor explains itself exactly when it does not accept: a
/// declining or referring factor carries a reason, an accepting one none.
pub proof fn lemma_factor_reason_iff_not_accepted(
    age: Option<u32>,
    coverage_cents: Option<i64>,
    claims: Option<i64>,
    name: Seq<char>,
    what: Seq<char>,
    value_cents: Option<i64>,
    amount_cents: Option<i64>,
)
    ensures
        (age_factor(age, coverage_cents).reason is Some) <==> age_factor(age, coverage_cents).outcome
            != FactorOutcome::Accept,
        (claims_factor(claims).reason is Some) <==> claims_factor(claims).outcome
            != FactorOutcome::Accept,
        (ratio_factor(name, what, coverage_cents, value_cents).reason is Some) <==> ratio_factor(
            name,
            what,
            coverage_cents,
            value_cents,
        ).outcome != FactorOutcome::Accept,
        (vehicle_band_factor(value_cents).reason is Some) <==> vehicle_band_factor(
            value_cents,
        ).outcome != FactorOutcome::Accept,
        (life_age_factor(age).reason is Some) <==> life_age_factor(age).outcome
            != FactorOutcome::Accept,
        (life_coverage_factor(amount_cents).reason is Some) <==> life_coverage_factor(
            amount_cents,
        ).outcome != FactorOutcome::Accept,
{
}

/// A missing input that underwriting depends on never yields a quote: an
/// unknown driver age, claims history or vehicle value (Auto), claims
/// history or property value (Property), applicant age, claims history or
/// face amount (Life).
pub proof fn lemma_missing_inputs_are_never_quoted(
    auto: AutoRiskProfile,
    property: PropertyRiskProfile,
    life: LifeRiskProfile,
)
    ensures
        (auto.driver_age is None || auto.prior_claims_5y is None || auto.vehicle_value_cents is None)
            ==> aggregate_spec(auto_factors(auto)).decision != UnderwritingDecision::Quoted,
        (property.prior_claims_5y is None || property.property_value_cents is None)
            ==> aggregate_spec(property_factors(property)).decision
            != UnderwritingDecision::Quoted,
        (life.applicant_age is None || life.prior_claims_5y is None
            || life.coverage_amount_cents is None) ==> aggregate_spec(life_factors(life)).decision
            != UnderwritingDecision::Quoted,
{
    let a = auto_factors(auto);
    let p = property_factors(property);
    let l = life_factors(life);
    lemma_decline_beats_refer_beats_quote(a);
    lemma_decline_beats_refer_beats_quote(p);
    lemma_decline_beats_refer_beats_quote(l);
    if auto.driver_age is None {
        assert(a[0].outcome != FactorOutcome::Accept);
    }
    if auto.prior_claims_5y is None {
        assert(a[1].outcome != FactorOutcome::Accept);
    }
    if auto.vehicle_value_cents is None {
        assert(a[2].outcome != FactorOutcome::Accept);
    }
    if property.prior_claims_5y is None {
        assert(p[0].outcome != FactorOutcome::Accept);
    }
    if property.property_value_cents is None {
        assert(p[1].outcome != FactorOutcome::Accept);
    }
    if life.applicant_age is None {
        assert(l[0].outcome != FactorOutcome::Accept);
    }
    if life.prior_claims_5y is None {
        assert(l[1].outcome != FactorOutcome::Accept);
    }
    if life.coverage_amount_cents is None {
        assert(l[2].outcome != FactorOutcome::Accept);
    }
}

/// Hard stops decline on every line that checks them: more than two (or a
/// negative number of) prior claims, an Auto driver or Life applicant under
/// 18, a Life applicant over 85, a Life face amount over $1,000,000, and
/// coverage above 1.5 times the insured value.
pub proof fn lemma_hard_stops_decline(
    auto: AutoRiskProfile,
    property: PropertyRiskProfile,
    life: LifeRiskProfile,
)
    ensures
        (auto.prior_claims_5y matches Some(c) && (c < 0 || c > 2)) ==> aggregate_spec(
            auto_factors(auto),
        ).decision == UnderwritingDecision::Declined,
        (property.prior_claims_5y matches Some(c) && (c < 0 || c > 2)) ==> aggregate_spec(
            property_factors(property),
        ).decision == UnderwritingDecision::Declined,
        (life.prior_claims_5y matches Some(c) && (c < 0 || c > 2)) ==> aggregate_spec(
            life_factors(life),
        ).decision == UnderwritingDecision::Declined,
        (auto.driver_age matches Some(age) && age < 18) ==> aggregate_spec(
            auto_factors(auto),
        ).decision == UnderwritingDecision::Declined,
        (life.applicant_age matches Some(age) && (age < 18 || age > 85)) ==> aggregate_spec(
            life_factors(life),
        ).decision == UnderwritingDecision::Declined,
        (life.coverage_amount_cents matches Some(a) && a > 100_000_000) ==> aggregate_spec(
            life_factors(life),
        ).decision == UnderwritingDecision::Declined,
        (auto.vehicle_value_cents matches Some(v) && v != 0 && !ratio_at_most(
            (match auto.coverage_amount_cents {
                Some(c) => c as int,
                None => 0,
            }),
            v as int,
            3,
            2,
        )) ==> aggregate_spec(auto_factors(auto)).decision == UnderwritingDecision::Declined,
        (property.property_value_cents matches Some(v) && v != 0 && !ratio_at_most(
            (match property.coverage_amount_cents {
                Some(c) => c as int,
                None => 0,
            }),
            v as int,
            3,
            2,
        )) ==> aggregate_spec(property_factors(property)).decision
            == UnderwritingDecision::Declined,
{
    let a = auto_factors(auto);
    let p = property_factors(property);
    let l = life_factors(life);
    if auto.prior_claims_5y matches Some(c) && (c < 0 || c > 2) {
        assert(a[1].outcome == FactorOutcome::Decline);
    }
    if property.prior_claims_5y matches Some(c) && (c < 0 || c > 2) {
        assert(p[0].outcome == FactorOutcome::Decline);
    }
    if life.prior_claims_5y matches Some(c) && (c < 0 || c > 2) {
        assert(l[1].outcome == FactorOutcome::Decline);
    }
    if auto.driver_age matches Some(age) && age < 18 {
        assert(a[0].outcome == FactorOutcome::Decline);
    }
    if life.applicant_age matches Some(age) && (age < 18 || age > 85) {
        assert(l[0].outcome == FactorOutcome::Decline);
    }
    if life.coverage_amount_cents matches Some(x) && x > 100_000_000 {
        assert(l[2].outcome == FactorOutcome::Decline);
    }
    if let Some(v) = auto.vehicle_value_cents {
        let c = match auto.coverage_amount_cents {
            Some(c) => c as int,
            None => 0,
        };
        if v != 0 && !ratio_at_most(c, v as int, 3, 2) {
            assert(!ratio_at_most(c, v as int, 6, 5));
            assert(a[2].outcome == FactorOutcome::Decline);
        }
    }
    if let Some(v) = property.property_value_cents {
        let c = match property.coverage_amount_cents {
            Some(c) => c as int,
            None => 0,
        };
        if v != 0 && !ratio_at_most(c, v as int, 3, 2) {
            assert(!ratio_at_most(c, v as int, 6, 5));
            assert(p[1].outcome == FactorOutcome::Decline);
        }
    }
}

proof fn lemma_product_at_least_one(rs: Seq<FactorSpec>)
    requires
        forall|i: int| 0 <= i < rs.len() ==> #[trigger] rs[i].factor.value_ppm >= 1_000_000,
    ensures
        product_ppm(rs) >= 1_000_000,
    decreases rs.len(),
{
    if rs.len() > 0 {
        let prev = rs.drop_last();
        assert forall|i: int| 0 <= i < prev.len() implies #[trigger] prev[i].factor.value_ppm
            >= 1_000_000 by {
            assert(prev[i] == rs[i]);
        }
        lemma_product_at_least_one(prev);
        let p = product_ppm(prev);
        let v = rs.last().factor.value_ppm;
        assert(v >= 1_000_000) by {
            assert(rs.last() == rs[rs.len() - 1]);
        }
        assert(p * v / 1_000_000 >= 1_000_000) by (nonlinear_arith)
            requires
                p >= 1_000_000,
                v >= 1_000_000,
        ;
    }
}

proof fn lemma_quoted_multiplier_at_least_one(rs: Seq<FactorSpec>)
    requires
        forall|i: int|
            0 <= i < rs.len() && #[trigger] rs[i].outcome == FactorOutcome::Accept
                ==> rs[i].factor.value_ppm >= 1_000_000,
    ensures
        aggregate_spec(rs).risk_multiplier_ppm >= 1_000_000,
{
    lemma_decline_beats_refer_beats_quote(rs);
    if aggregate_spec(rs).decision == UnderwritingDecision::Quoted {
        assert forall|i: int| 0 <= i < rs.len() implies #[trigger] rs[i].factor.value_ppm
            >= 1_000_000 by {
            assert(rs[i].outcome == FactorOutcome::Accept);
        }
        lemma_product_at_least_one(rs);
    }
}

/// Underwriting never discounts: on every line the risk multiplier is at
/// least one, so a quoted premium is never below the priced one.
pub proof fn lemma_underwriting_never_discounts(
    auto: AutoRiskProfile,
    property: PropertyRiskProfile,
    life: LifeRiskProfile,
)
    ensures
        aggregate_spec(auto_factors(auto)).risk_multiplier_ppm >= 1_000_000,
        aggregate_spec(property_factors(property)).risk_multiplier_ppm >= 1_000_000,
        aggregate_spec(life_factors(life)).risk_multiplier_ppm >= 1_000_000,
{
    let a = auto_factors(auto);
    let p = property_factors(property);
    let l = life_factors(life);
    assert forall|i: int|
        0 <= i < a.len() && #[trigger] a[i].outcome == FactorOutcome::Accept
            implies a[i].factor.value_ppm >= 1_000_000 by {}
    assert forall|i: int|
        0 <= i < p.len() && #[trigger] p[i].outcome == FactorOutcome::Accept
            implies p[i].factor.value_ppm >= 1_000_000 by {}
    assert forall|i: int|
        0 <= i < l.len() && #[trigger] l[i].outcome == FactorOutcome::Accept
            implies l[i].factor.value_ppm >= 1_000_000 by {}
    lemma_quoted_multiplier_at_least_one(a);
    lemma_quoted_multiplier_at_least_one(p);
    lemma_quoted_multiplier_at_least_one(l);
}

} // verus!
