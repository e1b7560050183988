//! Static pricing tables: the knowledge-base index for each line, the
//! currency of each market, and the default base rate and rate factors a
//! premium estimate starts from.
//!
//! Base rates are in millionths of a currency unit, amounts in cents and
//! factors in parts per million.

use vstd::prelude::*;
use crate::insurance::{factors_view, Currency, InsuranceType, RateFactor, RateFactorSpec};
use crate::doc_pipeline::{to_lowercase, unicode_lowercase};
use crate::money::{abs, push_whole_units, whole_units_text};
use crate::text::{
    char_is_whitespace, chars_of, decimal, digit_char, digit_char_exec, eq_ignore_ascii_case,
    eq_ignore_ascii_case_spec, is_whitespace, push_char, push_decimal, string_of, strings_view,
};

verus! {

/// Input parameters of a premium estimate.
#[derive(Debug)]
pub struct PremiumRequest {
    pub insurance_type: InsuranceType,
    /// ISO 3166-1 alpha-2 country code (currently US, IN or AE).
    pub country: String,
    /// US state code (e.g. "CT") for state-level rating.
    pub state_code: Option<String>,
    /// Coverage / sum insured in the product currency, in cents.
    pub coverage_amount_cents: i64,
    /// Customer age, used for Life and Health.
    pub customer_age: Option<u32>,
    /// Vehicle market value in cents (Auto only).
    pub vehicle_value_cents: Option<i64>,
}

/// The knowledge-base index searched for each line of business.
pub open spec fn index_name(t: InsuranceType) -> Seq<char> {
    match t {
        InsuranceType::Auto => "insurance-auto-kb"@,
        InsuranceType::Life => "insurance-life-kb"@,
        InsuranceType::Health => "insurance-health-kb"@,
        InsuranceType::Property => "insurance-property-kb"@,
        InsuranceType::Marine => "insurance-marine-kb"@,
    }
}

/// Maps an insurance line to its knowledge-base index.
pub fn index_for_type(t: &InsuranceType) -> (r: &'static str)
    ensures
        r@ == index_name(*t),
{
    match t {
        InsuranceType::Auto => "insurance-auto-kb",
        InsuranceType::Life => "insurance-life-kb",
        InsuranceType::Health => "insurance-health-kb",
        InsuranceType::Property => "insurance-property-kb",
        InsuranceType::Marine => "insurance-marine-kb",
    }
}

/// India prices in rupees, the Emirates in dirhams, everything else in
/// dollars; the country code is compared ignoring ASCII case.
pub open spec fn country_currency(country: Seq<char>) -> Currency {
    if eq_ignore_ascii_case_spec(country, "IN"@) {
        Currency::Inr
    } else if eq_ignore_ascii_case_spec(country, "AE"@) {
        Currency::Aed
    } else {
        Currency::Usd
    }
}

pub fn currency_for_country(country: &str) -> (r: Currency)
    ensures
        r == country_currency(country@),
{
    if eq_ignore_ascii_case(country, "IN") {
        Currency::Inr
    } else if eq_ignore_ascii_case(country, "AE") {
        Currency::Aed
    } else {
        Currency::Usd
    }
}

/// One of three figures by market: India, the Emirates, anywhere else.
pub open spec fn by_market(country: Seq<char>, india: int, emirates: int, other: int) -> int {
    if eq_ignore_ascii_case_spec(country, "IN"@) {
        india
    } else if eq_ignore_ascii_case_spec(country, "AE"@) {
        emirates
    } else {
        other
    }
}

/// The default base rate in millionths of a currency unit: a flat annual
/// rate per market for Auto (800 / 1,500 / 1,200), Life (400 / 650 / 500)
/// and Health (600 / 1,800 / 1,500); 0.5% of the coverage for Property and
/// 0.3% for Marine.
pub open spec fn default_base_rate(req: PremiumRequest) -> int {
    let c = req.country@;
    match req.insurance_type {
        InsuranceType::Auto => by_market(c, 800_000_000, 1_500_000_000, 1_200_000_000),
        InsuranceType::Life => by_market(c, 400_000_000, 650_000_000, 500_000_000),
        InsuranceType::Health => by_market(c, 600_000_000, 1_800_000_000, 1_500_000_000),
        InsuranceType::Property => req.coverage_amount_cents * 50,
        InsuranceType::Marine => req.coverage_amount_cents * 30,
    }
}

/// Life mortality band: up to 30, 31–45, 46–60, older.
pub open spec fn life_age_band_ppm(age: int) -> int {
    if age <= 30 {
        1_000_000
    } else if age <= 45 {
        1_300_000
    } else if age <= 60 {
        1_800_000
    } else {
        2_500_000
    }
}

/// Health risk band: under 35, under 55, older.
pub open spec fn health_age_band_ppm(age: int) -> int {
    if age < 35 {
        1_000_000
    } else if age < 55 {
        1_400_000
    } else {
        2_000_000
    }
}

/// One plus one ten-thousandth of the vehicle value, the addition capped
/// at one half.
pub open spec fn vehicle_load_ppm(value_cents: int) -> int {
    if value_cents < 500_000 {
        1_000_000 + value_cents
    } else {
        1_500_000
    }
}

/// The default factors: a vehicle-value load for Auto when the value is
/// known, an age band for Life and Health when the age is known, none
/// otherwise.
pub open spec fn default_factors(req: PremiumRequest) -> Seq<RateFactorSpec> {
    match req.insurance_type {
        InsuranceType::Auto => match req.vehicle_value_cents {
            Some(v) => seq![
                RateFactorSpec {
                    name: "vehicle_value_load"@,
                    value_ppm: vehicle_load_ppm(v as int),
                    description: Some("load based on vehicle value $"@ + whole_units_text(v as int)),
                },
            ],
            None => seq![],
        },
        InsuranceType::Life => match req.customer_age {
            Some(a) => seq![
                RateFactorSpec {
                    name: "age_band"@,
                    value_ppm: life_age_band_ppm(a as int),
                    description: Some("mortality load for age "@ + decimal(a as nat)),
                },
            ],
            None => seq![],
        },
        InsuranceType::Health => match req.customer_age {
            Some(a) => seq![
                RateFactorSpec {
                    name: "age_band"@,
                    value_ppm: health_age_band_ppm(a as int),
                    description: Some("health risk load for age "@ + decimal(a as nat)),
                },
            ],
            None => seq![],
        },
        _ => seq![],
    }
}

fn by_market_exec(country: &str, india: i128, emirates: i128, other: i128) -> (r: i128)
    ensures
        r == by_market(country@, india as int, emirates as int, other as int),
{
    if eq_ignore_ascii_case(country, "IN") {
        india
    } else if eq_ignore_ascii_case(country, "AE") {
        emirates
    } else {
        other
    }
}

fn age_factor(name: &str, prefix: &str, age: u32, value_ppm: i64) -> (r: RateFactor)
    ensures
        r@ == (RateFactorSpec {
            name: name@,
            value_ppm: value_ppm as int,
            description: Some(prefix@ + decimal(age as nat)),
        }),
{
    let mut d = String::from_str(prefix);
    push_decimal(&mut d, age as u128);
    RateFactor { name: String::from_str(name), value_ppm, description: Some(d) }
}

/// The static base rate (millionths of a unit) and factor list an
/// estimate starts from.
pub fn default_rates(req: &PremiumRequest) -> (r: (i128, Vec<RateFactor>))
    ensures
        r.0 == default_base_rate(*req),
        factors_view(r.1@) == default_factors(*req),
{
    let mut factors: Vec<RateFactor> = Vec::new();
    let country = req.country.as_str();
    let base: i128 = match req.insurance_type {
        InsuranceType::Auto => {
            let base = by_market_exec(country, 800_000_000, 1_500_000_000, 1_200_000_000);
            if let Some(v) = req.vehicle_value_cents {
                let load: i64 = if v < 500_000 {
                    1_000_000 + v
                } else {
                    1_500_000
                };
                let mut d = String::from_str("load based on vehicle value $");
                push_whole_units(&mut d, v);
                factors.push(
                    RateFactor {
                        name: String::from_str("vehicle_value_load"),
                        value_ppm: load,
                        description: Some(d),
                    },
                );
            }
            base
        },
        InsuranceType::Life => {
            let base = by_market_exec(country, 400_000_000, 650_000_000, 500_000_000);
            if let Some(a) = req.customer_age {
                let band: i64 = if a <= 30 {
                    1_000_000
                } else if a <= 45 {
                    1_300_000
                } else if a <= 60 {
                    1_800_000
                } else {
                    2_500_000
                };
                factors.push(age_factor("age_band", "mortality load for age ", a, band));
            }
            base
        },
        InsuranceType::Health => {
            let base = by_market_exec(country, 600_000_000, 1_800_000_000, 1_500_000_000);
            if let Some(a) = req.customer_age {
                let band: i64 = if a < 35 {
                    1_000_000
                } else if a < 55 {
                    1_400_000
                } else {
                    2_000_000
                };
                factors.push(age_factor("age_band", "health risk load for age ", a, band));
            }
            base
        },
        InsuranceType::Property => (req.coverage_amount_cents as i128) * 50,
        InsuranceType::Marine => (req.coverage_amount_cents as i128) * 30,
    };
    assert(factors_view(factors@) =~= default_factors(*req));
    (base, factors)
}

/// The default base rates, in millionths of a unit: Auto 800 (India),
/// 1,500 (Emirates), 1,200 elsewhere; Life 400 / 650 / 500; Health 600 /
/// 1,800 / 1,500; Property 0.5% and Marine 0.3% of the coverage (a
/// coverage of c cents is c / 100 units, so 0.5% of it is 50·c millionths).
/// The country is matched without regard to ASCII case.
pub proof fn lemma_default_base_rates(req: PremiumRequest)
    ensures
        ({
            let india = eq_ignore_ascii_case_spec(req.country@, "IN"@);
            let emirates = !india && eq_ignore_ascii_case_spec(req.country@, "AE"@);
            let elsewhere = !india && !emirates;
            let b = default_base_rate(req);
            &&& req.insurance_type == InsuranceType::Auto ==> (india ==> b == 800_000_000) && (
            emirates ==> b == 1_500_000_000) && (elsewhere ==> b == 1_200_000_000)
            &&& req.insurance_type == InsuranceType::Life ==> (india ==> b == 400_000_000) && (
            emirates ==> b == 650_000_000) && (elsewhere ==> b == 500_000_000)
            &&& req.insurance_type == InsuranceType::Health ==> (india ==> b == 600_000_000) && (
            emirates ==> b == 1_800_000_000) && (elsewhere ==> b == 1_500_000_000)
            &&& req.insurance_type == InsuranceType::Property ==> b == req.coverage_amount_cents * 50
            &&& req.insurance_type == InsuranceType::Marine ==> b == req.coverage_amount_cents * 30
        }),
{
}

/// The default factors. Health: one `age_band` factor when the age is
/// known, 1.0 below 35, 1.4 from 35 to 54, 2.0 from 55 on. Life: one
/// `age_band` factor, 1.0 up to 30, 1.3 to 45, 1.8 to 60, 2.5 above. Auto:
/// one `vehicle_value_load` when the value is known, one plus a
/// ten-thousandth of the value (in millionths, the value in cents), at most
/// 1.5. None without the age or value, and none for Property or Marine.
pub proof fn lemma_default_factor_table(req: PremiumRequest)
    ensures
        ({
            let f = default_factors(req);
            &&& req.insurance_type == InsuranceType::Health ==> match req.customer_age {
                None => f.len() == 0,
                Some(a) => {
                    &&& f.len() == 1
                    &&& f[0].name == "age_band"@
                    &&& a < 35 ==> f[0].value_ppm == 1_000_000
                    &&& 35 <= a < 55 ==> f[0].value_ppm == 1_400_000
                    &&& a >= 55 ==> f[0].value_ppm == 2_000_000
                    &&& f[0].description == Some("health risk load for age "@ + decimal(a as nat))
                },
            }
            &&& req.insurance_type == InsuranceType::Life ==> match req.customer_age {
                None => f.len() == 0,
                Some(a) => {
                    &&& f.len() == 1
                    &&& f[0].name == "age_band"@
                    &&& a <= 30 ==> f[0].value_ppm == 1_000_000
                    &&& 30 < a <= 45 ==> f[0].value_ppm == 1_300_000
                    &&& 45 < a <= 60 ==> f[0].value_ppm == 1_800_000
                    &&& a > 60 ==> f[0].value_ppm == 2_500_000
                    &&& f[0].description == Some("mortality load for age "@ + decimal(a as nat))
                },
            }
            &&& req.insurance_type == InsuranceType::Auto ==> match req.vehicle_value_cents {
                None => f.len() == 0,
                Some(v) => {
                    &&& f.len() == 1
                    &&& f[0].name == "vehicle_value_load"@
                    &&& v < 500_000 ==> f[0].value_ppm == 1_000_000 + v
                    &&& v >= 500_000 ==> f[0].value_ppm == 1_500_000
                    &&& f[0].value_ppm <= 1_500_000
                },
            }
            &&& (req.insurance_type == InsuranceType::Property || req.insurance_type
                == InsuranceType::Marine) ==> f.len() == 0
        }),
{
}

/// An older customer's age band never loads less than a younger one's, for
/// Life and for Health.
pub proof fn lemma_age_bands_never_fall_with_age(a: int, b: int)
    requires
        a <= b,
    ensures
        life_age_band_ppm(a) <= life_age_band_ppm(b),
        health_age_band_ppm(a) <= health_age_band_ppm(b),
        1_000_000 <= health_age_band_ppm(a) <= 2_000_000,
        1_000_000 <= life_age_band_ppm(a) <= 2_500_000,
{
}

// ── knowledge-base search ──────────────────────────────────────────────────

/// A line's name in search text.
pub open spec fn line_word(t: InsuranceType) -> Seq<char> {
    match t {
        InsuranceType::Auto => "auto"@,
        InsuranceType::Life => "life"@,
        InsuranceType::Health => "health"@,
        InsuranceType::Property => "property"@,
        InsuranceType::Marine => "marine"@,
    }
}

fn line_word_exec(t: &InsuranceType) -> (r: &'static str)
    ensures
        r@ == line_word(*t),
{
    match t {
        InsuranceType::Auto => "auto",
        InsuranceType::Life => "life",
        InsuranceType::Health => "health",
        InsuranceType::Property => "property",
        InsuranceType::Marine => "marine",
    }
}

/// An amount in cents written as the shortest decimal of its value in
/// currency units: no trailing zeros after the point, no point for whole
/// amounts, `-` first when negative.
pub open spec fn amount_text(cents: int) -> Seq<char> {
    let a = abs(cents);
    let units = decimal(a / 100);
    let frac = a % 100;
    let body = if frac == 0 {
        units
    } else if frac % 10 == 0 {
        units + seq!['.', digit_char((frac / 10) as int)]
    } else {
        units + seq!['.', digit_char((frac / 10) as int), digit_char((frac % 10) as int)]
    };
    if cents < 0 {
        seq!['-'] + body
    } else {
        body
    }
}

fn push_amount(s: &mut String, cents: i64)
    ensures
        final(s)@ == old(s)@ + amount_text(cents as int),
{
    let ghost before = s@;
    let a: u128 = if cents < 0 {
        (0i128 - cents as i128) as u128
    } else {
        cents as u128
    };
    if cents < 0 {
        push_char(s, '-');
    }
    push_decimal(s, a / 100);
    let frac = a % 100;
    if frac != 0 {
        push_char(s, '.');
        push_char(s, digit_char_exec((frac / 10) as u64));
        if frac % 10 != 0 {
            push_char(s, digit_char_exec((frac % 10) as u64));
        }
    }
    assert(s@ =~= before + amount_text(cents as int));
}

/// The free-text query for an estimate: the line, the country, the state,
/// age and vehicle value when given, and the coverage, joined by spaces.
pub open spec fn query_text(req: PremiumRequest) -> Seq<char> {
    let head = line_word(req.insurance_type) + " insurance country "@ + req.country@;
    let state = match req.state_code {
        Some(s) => " state "@ + s@,
        None => seq![],
    };
    let age = match req.customer_age {
        Some(a) => " age "@ + decimal(a as nat),
        None => seq![],
    };
    let vehicle = match req.vehicle_value_cents {
        Some(v) => " vehicle value "@ + amount_text(v as int),
        None => seq![],
    };
    head + state + age + vehicle + " coverage "@ + amount_text(req.coverage_amount_cents as int)
}

pub fn build_query(req: &PremiumRequest) -> (r: String)
    ensures
        r@ == query_text(*req),
{
    let mut q = String::from_str(line_word_exec(&req.insurance_type));
    q.append(" insurance country ");
    q.append(req.country.as_str());
    if let Some(st) = &req.state_code {
        q.append(" state ");
        q.append(st.as_str());
    }
    if let Some(a) = req.customer_age {
        q.append(" age ");
        push_decimal(&mut q, a as u128);
    }
    if let Some(v) = req.vehicle_value_cents {
        q.append(" vehicle value ");
        push_amount(&mut q, v);
    }
    q.append(" coverage ");
    push_amount(&mut q, req.coverage_amount_cents);
    q
}

/// Each line searches the index named after it, `insurance-{line}-kb`,
/// with the same word that opens its query; no two lines share an index.
pub proof fn lemma_each_line_has_its_own_index(t: InsuranceType, u: InsuranceType)
    ensures
        index_name(t) == "insurance-"@ + line_word(t) + "-kb"@,
        t != u ==> index_name(t) != index_name(u),
{
    reveal_strlit("insurance-");
    reveal_strlit("-kb");
    reveal_strlit("auto");
    reveal_strlit("life");
    reveal_strlit("health");
    reveal_strlit("property");
    reveal_strlit("marine");
    reveal_strlit("insurance-auto-kb");
    reveal_strlit("insurance-life-kb");
    reveal_strlit("insurance-health-kb");
    reveal_strlit("insurance-property-kb");
    reveal_strlit("insurance-marine-kb");
    assert(index_name(t) =~= "insurance-"@ + line_word(t) + "-kb"@);
    if t != u {
        assert(index_name(t)[10] != index_name(u)[10] || index_name(t).len() != index_name(u).len());
    }
}

/// The first position at or after `i` where `p` occurs in `s`.
pub open spec fn first_from(s: Seq<char>, p: Seq<char>, i: int) -> Option<int>
    decreases s.len() + 1 - i,
{
    if i < 0 || i + p.len() > s.len() {
        None
    } else if s.subrange(i, i + p.len()) == p {
        Some(i)
    } else {
        first_from(s, p, i + 1)
    }
}

/// `s` split at runs of whitespace, without empty pieces.
pub open spec fn words(s: Seq<char>) -> Seq<Seq<char>>
    decreases s.len(),
{
    if s.len() == 0 {
        seq![]
    } else {
        let w = words(s.drop_last());
        let c = s.last();
        if is_whitespace(c) {
            w
        } else if s.len() >= 2 && !is_whitespace(s[s.len() - 2]) {
            w.update(w.len() - 1, w.last().push(c))
        } else {
            w.push(seq![c])
        }
    }
}

pub open spec fn is_separator(c: char) -> bool {
    c == ',' || c == ';' || c == ':'
}

pub open spec fn trim_end_separators(s: Seq<char>) -> Seq<char>
    decreases s.len(),
{
    if s.len() > 0 && is_separator(s.last()) {
        trim_end_separators(s.drop_last())
    } else {
        s
    }
}

pub open spec fn trim_start_separators(s: Seq<char>) -> Seq<char>
    decreases s.len(),
{
    if s.len() > 0 && is_separator(s[0]) {
        trim_start_separators(s.drop_first())
    } else {
        s
    }
}

/// A word without the commas, semicolons and colons around it.
pub open spec fn trim_separators(s: Seq<char>) -> Seq<char> {
    trim_start_separators(trim_end_separators(s))
}

/// Where a rate factor is looked for in a search result: from the first
/// `rate` in the lowercased text, or failing that the first `factor`.
pub open spec fn factor_anchor(text: Seq<char>) -> Option<int> {
    match first_from(text, "rate"@, 0) {
        Some(p) => Some(p),
        None => first_from(text, "factor"@, 0),
    }
}

pub open spec fn trimmer() -> spec_fn(Seq<char>) -> Seq<char> {
    |w: Seq<char>| trim_separators(w)
}

pub open spec fn char_vecs_view(v: Seq<Vec<char>>) -> Seq<Seq<char>> {
    v.map_values(|w: Vec<char>| w@)
}

/// The words that may hold a result's rate factor: the three after the
/// anchor word, trimmed of separators; none when the text names no rate
/// or factor.
pub open spec fn factor_candidates_text(content: Seq<char>) -> Option<Seq<Seq<char>>> {
    let text = unicode_lowercase(content);
    match factor_anchor(text) {
        None => None,
        Some(p) => {
            let ws = words(text.subrange(p, text.len() as int));
            let n = if ws.len() < 4 { ws.len() as int } else { 4 };
            Some(ws.subrange(if ws.len() > 0 { 1 } else { 0 }, n).map_values(trimmer()))
        },
    }
}

fn first_occurrence(v: &Vec<char>, p: &str) -> (r: Option<usize>)
    ensures
        (match r {
            Some(i) => first_from(v@, p@, 0) == Some(i as int),
            None => first_from(v@, p@, 0) is None,
        }),
{
    let pv = chars_of(p);
    if pv.len() > v.len() {
        return None;
    }
    let mut i: usize = 0;
    while i <= v.len() - pv.len()
        invariant
            pv@ == p@,
            pv.len() <= v.len(),
            i <= v.len() - pv.len() + 1,
            first_from(v@, p@, 0) == first_from(v@, p@, i as int),
        decreases v.len() - pv.len() + 1 - i,
    {
        let mut j: usize = 0;
        let mut same = true;
        while j < pv.len()
            invariant
                j <= pv.len(),
                i + pv.len() <= v.len(),
                same == (v@.subrange(i as int, i + j) =~= pv@.subrange(0, j as int)),
            decreases pv.len() - j,
        {
            let ghost a = v@.subrange(i as int, i + j);
            let ghost b = pv@.subrange(0, j as int);
            let ghost a2 = v@.subrange(i as int, i + j + 1);
            let ghost b2 = pv@.subrange(0, j + 1);
            proof {
                if a2 =~= b2 {
                    assert(a2.subrange(0, j as int) =~= a);
                    assert(b2.subrange(0, j as int) =~= b);
                    assert(a2[j as int] == b2[j as int]);
                }
                if a =~= b && v@[i + j] == pv@[j as int] {
                    assert(a2 =~= b2);
                }
            }
            if v[i + j] != pv[j] {
                same = false;
            }
            j = j + 1;
        }
        assert(pv@.subrange(0, pv@.len() as int) =~= pv@);
        if same {
            return Some(i);
        }
        i = i + 1;
    }
    None
}

fn trimmed_word(w: &Vec<char>) -> (r: String)
    ensures
        r@ == trim_separators(w@),
{
    let mut end: usize = w.len();
    assert(w@.subrange(0, end as int) =~= w@);
    while end > 0 && (w[end - 1] == ',' || w[end - 1] == ';' || w[end - 1] == ':')
        invariant
            end <= w.len(),
            trim_end_separators(w@.subrange(0, end as int)) == trim_end_separators(w@),
        decreases end,
    {
        assert(w@.subrange(0, end as int).drop_last() =~= w@.subrange(0, end - 1));
        end = end - 1;
    }
    let mut start: usize = 0;
    assert(w@.subrange(start as int, end as int) =~= trim_end_separators(w@));
    while start < end && (w[start] == ',' || w[start] == ';' || w[start] == ':')
        invariant
            start <= end <= w.len(),
            trim_start_separators(w@.subrange(start as int, end as int)) == trim_separators(w@),
        decreases end - start,
    {
        assert(w@.subrange(start as int, end as int).drop_first() =~= w@.subrange(start + 1, end as int));
        start = start + 1;
    }
    let mut out: Vec<char> = Vec::new();
    let mut k: usize = start;
    while k < end
        invariant
            start <= k <= end,
            end <= w.len(),
            out@ == w@.subrange(start as int, k as int),
        decreases end - k,
    {
        out.push(w[k]);
        k = k + 1;
        assert(out@ =~= w@.subrange(start as int, k as int));
    }
    string_of(&out)
}

/// The words of `v` from position `from` on (see `words`).
fn words_from(v: &Vec<char>, from: usize) -> (r: Vec<Vec<char>>)
    requires
        from <= v.len(),
    ensures
        char_vecs_view(r@) == words(v@.subrange(from as int, v@.len() as int)),
{
    let ghost t = v@.subrange(from as int, v@.len() as int);
    let mut done: Vec<Vec<char>> = Vec::new();
    let mut cur: Vec<char> = Vec::new();
    let mut i: usize = from;
    assert(t.subrange(0, 0) =~= Seq::<char>::empty());
    while i < v.len()
        invariant
            from <= i <= v.len(),
            t == v@.subrange(from as int, v@.len() as int),
            (if cur@.len() > 0 {
                char_vecs_view(done@).push(cur@)
            } else {
                char_vecs_view(done@)
            }) == words(t.subrange(0, i - from)),
            cur@.len() > 0 <==> (i > from && !is_whitespace(v@[i - 1])),
        decreases v.len() - i,
    {
        let ghost pre = t.subrange(0, i - from);
        let ghost nxt = t.subrange(0, i - from + 1);
        assert(nxt.drop_last() =~= pre);
        assert(nxt.last() == v@[i as int]);
        let c = v[i];
        let ghost old_done = char_vecs_view(done@);
        let ghost old_cur = cur@;
        if char_is_whitespace(c) {
            if cur.len() > 0 {
                let w = cur;
                done.push(w);
                cur = Vec::new();
                assert(char_vecs_view(done@) =~= old_done.push(old_cur));
            }
            assert(words(nxt) == words(pre));
        } else {
            if cur.len() > 0 {
                assert(nxt.len() >= 2 && nxt[nxt.len() - 2] == v@[i - 1]);
                cur.push(c);
                assert(words(nxt) =~= words(pre).update(words(pre).len() - 1, words(pre).last().push(c)));
                assert(char_vecs_view(done@).push(cur@) =~= words(nxt));
            } else {
                cur.push(c);
                assert(nxt.len() >= 2 ==> nxt[nxt.len() - 2] == v@[i - 1]);
                assert(words(nxt) =~= words(pre).push(seq![c]));
                assert(cur@ =~= seq![c]);
            }
        }
        i = i + 1;
    }
    assert(t.subrange(0, v.len() - from) =~= t);
    if cur.len() > 0 {
        let ghost before = char_vecs_view(done@);
        done.push(cur);
        assert(char_vecs_view(done@) =~= before.push(cur@));
    }
    done
}

/// The candidate words of a search result's rate factor (see
/// `factor_candidates_text`); each is parsed as a number at the edge.
pub fn factor_candidates(content: &str) -> (r: Option<Vec<String>>)
    ensures
        (match r {
            Some(ws) => factor_candidates_text(content@) == Some(strings_view(ws@)),
            None => factor_candidates_text(content@) is None,
        }),
{
    let lower = to_lowercase(content);
    let text = chars_of(lower.as_str());
    let anchor = match first_occurrence(&text, "rate") {
        Some(p) => Some(p),
        None => first_occurrence(&text, "factor"),
    };
    let p = match anchor {
        None => {
            return None;
        },
        Some(p) => p,
    };
    proof {
        lemma_first_from_in_bounds(text@, "rate"@, 0);
        lemma_first_from_in_bounds(text@, "factor"@, 0);
    }
    let ws = words_from(&text, p);
    let ghost wv = char_vecs_view(ws@);
    let n: usize = if ws.len() < 4 {
        ws.len()
    } else {
        4
    };
    let first: usize = if ws.len() > 0 {
        1
    } else {
        0
    };
    let mut out: Vec<String> = Vec::new();
    let mut k: usize = first;
    while k < n
        invariant
            first <= k <= n,
            n <= ws.len(),
            wv == char_vecs_view(ws@),
            strings_view(out@) == wv.subrange(first as int, k as int).map_values(trimmer()),
        decreases n - k,
    {
        assert(wv[k as int] == ws@[k as int]@);
        let ghost prev_out = out@;
        let t = trimmed_word(&ws[k]);
        assert(t@ == (trimmer())(wv[k as int]));
        out.push(t);
        assert(strings_view(out@) =~= strings_view(prev_out).push(t@));
        assert(wv.subrange(first as int, k + 1).map_values(trimmer()) =~= wv.subrange(
            first as int,
            k as int,
        ).map_values(trimmer()).push((trimmer())(wv[k as int])));
        k = k + 1;
        assert(strings_view(out@) =~= wv.subrange(first as int, k as int).map_values(trimmer()));
    }
    Some(out)
}

proof fn lemma_first_from_in_bounds(s: Seq<char>, p: Seq<char>, i: int)
    ensures
        first_from(s, p, i) matches Some(k) ==> i <= k && k + p.len() <= s.len(),
    decreases s.len() + 1 - i,
{
    if !(i < 0 || i + p.len() > s.len()) && s.subrange(i, i + p.len()) != p {
        lemma_first_from_in_bounds(s, p, i + 1);
    }
}

/// The name of the factor read from the `i`-th search result.
pub fn kb_factor_name(i: usize) -> (r: String)
    ensures
        r@ == "kb_factor_"@ + decimal(i as nat),
{
    let mut s = String::from_str("kb_factor_");
    push_decimal(&mut s, i as u128);
    s
}

} // verus!
