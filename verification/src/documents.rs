//! Policy documents: the US declarations page and the India policy
//! schedule, laid out as text placed on a page, and where the rendered
//! file is stored. Drawing the placements into a PDF happens at the edge.
//!
//! Lengths are in tenths of a millimetre, font sizes in tenths of a point,
//! premiums in cents.

use vstd::prelude::*;
use crate::insurance::{Currency, Customer, NationalIdType, Policy, Product};
use crate::money::{push_two_places, two_places};
use crate::text::{
    chars_of, decimal, digit_char, digit_char_exec, eq_ignore_ascii_case, eq_ignore_ascii_case_spec,
    push_char, push_decimal, string_of,
};

verus! {

/// A calendar date.
#[derive(Debug, Clone, Copy, PartialEq, Eq, Structural)]
pub struct CivilDate {
    pub year: i32,
    pub month: u32,
    pub day: u32,
}

/// The dates a policy document shows.
#[derive(Debug, Clone, Copy, PartialEq, Eq, Structural)]
pub struct DocumentDates {
    pub start: CivilDate,
    pub end: CivilDate,
    pub created: CivilDate,
}

/// One coverage value as stored: a JSON number (its text), a string, or
/// any other JSON value (its JSON text).
#[derive(Debug, PartialEq, Eq)]
pub enum CoverageValue {
    Number(String),
    Text(String),
    Other(String),
}

/// One entry of a policy's coverage, in stored order.
#[derive(Debug, PartialEq, Eq)]
pub struct CoverageLine {
    pub key: String,
    pub value: CoverageValue,
}

/// A run of text at a point of the page.
#[derive(Debug, PartialEq, Eq)]
pub struct TextPlacement {
    pub text: String,
    pub size_tenths: u32,
    pub x_tenths: i64,
    pub y_tenths: i128,
    pub bold: bool,
}

pub struct PlacementSpec {
    pub text: Seq<char>,
    pub size_tenths: int,
    pub x_tenths: int,
    pub y_tenths: int,
    pub bold: bool,
}

impl View for TextPlacement {
    type V = PlacementSpec;

    open spec fn view(&self) -> PlacementSpec {
        PlacementSpec {
            text: self.text@,
            size_tenths: self.size_tenths as int,
            x_tenths: self.x_tenths as int,
            y_tenths: self.y_tenths as int,
            bold: self.bold,
        }
    }
}

pub open spec fn placements_view(v: Seq<TextPlacement>) -> Seq<PlacementSpec> {
    v.map_values(|p: TextPlacement| p@)
}

/// A page to draw: its title, size and text.
#[derive(Debug)]
pub struct PagePlan {
    pub title: String,
    pub width_tenths: i64,
    pub height_tenths: i64,
    pub placements: Vec<TextPlacement>,
}

// ── text of dates and amounts ──────────────────────────────────────────────

/// Two decimal digits (a month or a day).
pub open spec fn two_digits(n: int) -> Seq<char> {
    seq![digit_char((n / 10) % 10), digit_char(n % 10)]
}

/// `n` zero-padded to at least four digits.
pub open spec fn four_digits(n: nat) -> Seq<char> {
    if n < 10 {
        "000"@ + decimal(n)
    } else if n < 100 {
        "00"@ + decimal(n)
    } else if n < 1000 {
        "0"@ + decimal(n)
    } else {
        decimal(n)
    }
}

/// A year as `%Y` writes it: four digits for 0 to 9999, else signed.
pub open spec fn year_text(y: int) -> Seq<char> {
    if 0 <= y < 10000 {
        four_digits(y as nat)
    } else if y < 0 {
        seq!['-'] + four_digits((-y) as nat)
    } else {
        seq!['+'] + decimal(y as nat)
    }
}

/// `%m/%d/%Y`.
pub open spec fn us_date(d: CivilDate) -> Seq<char> {
    two_digits(d.month as int) + seq!['/'] + two_digits(d.day as int) + seq!['/'] + year_text(
        d.year as int,
    )
}

/// `%d/%m/%Y`.
pub open spec fn india_date(d: CivilDate) -> Seq<char> {
    two_digits(d.day as int) + seq!['/'] + two_digits(d.month as int) + seq!['/'] + year_text(
        d.year as int,
    )
}

fn push_two_digits(s: &mut String, n: u32)
    requires
        n < 100,
    ensures
        final(s)@ == old(s)@ + two_digits(n as int),
{
    let ghost before = s@;
    push_char(s, digit_char_exec(((n / 10) % 10) as u64));
    push_char(s, digit_char_exec((n % 10) as u64));
    assert(s@ =~= before + two_digits(n as int));
}

fn push_four_digits(s: &mut String, n: u32)
    ensures
        final(s)@ == old(s)@ + four_digits(n as nat),
{
    let ghost before = s@;
    if n < 10 {
        s.append("000");
    } else if n < 100 {
        s.append("00");
    } else if n < 1000 {
        s.append("0");
    }
    push_decimal(s, n as u128);
    assert(s@ =~= before + four_digits(n as nat));
}

fn push_year(s: &mut String, y: i32)
    ensures
        final(s)@ == old(s)@ + year_text(y as int),
{
    let ghost before = s@;
    if 0 <= y && y < 10000 {
        push_four_digits(s, y as u32);
    } else if y < 0 {
        push_char(s, '-');
        let m: u32 = if y == i32::MIN {
            2147483648u32
        } else {
            (-y) as u32
        };
        push_four_digits(s, m);
    } else {
        push_char(s, '+');
        push_decimal(s, y as u128);
    }
    assert(s@ =~= before + year_text(y as int));
}

fn push_date(s: &mut String, d: CivilDate, day_first: bool)
    requires
        d.month < 100,
        d.day < 100,
    ensures
        day_first ==> final(s)@ == old(s)@ + india_date(d),
        !day_first ==> final(s)@ == old(s)@ + us_date(d),
{
    let ghost before = s@;
    if day_first {
        push_two_digits(s, d.day);
        push_char(s, '/');
        push_two_digits(s, d.month);
    } else {
        push_two_digits(s, d.month);
        push_char(s, '/');
        push_two_digits(s, d.day);
    }
    push_char(s, '/');
    push_year(s, d.year);
    assert(day_first ==> s@ =~= before + india_date(d));
    assert(!day_first ==> s@ =~= before + us_date(d));
}

/// An amount in cents with two decimals, `-` first when negative.
pub open spec fn cents_text(cents: int) -> Seq<char> {
    if cents < 0 {
        seq!['-'] + two_places((-cents) as nat)
    } else {
        two_places(cents as nat)
    }
}

fn push_cents(s: &mut String, cents: i64)
    ensures
        final(s)@ == old(s)@ + cents_text(cents as int),
{
    let ghost before = s@;
    let magnitude: u128 = if cents < 0 {
        (0i128 - cents as i128) as u128
    } else {
        cents as u128
    };
    if cents < 0 {
        push_char(s, '-');
    }
    push_two_places(s, magnitude);
    assert(s@ =~= before + cents_text(cents as int));
}

/// The currency's symbol on the US page.
pub open spec fn currency_symbol_text(c: Currency) -> Seq<char> {
    match c {
        Currency::Usd => "$"@,
        Currency::Inr => "Rs"@,
        Currency::Aed => "AED"@,
    }
}

pub fn currency_symbol(c: Currency) -> (r: &'static str)
    ensures
        r@ == currency_symbol_text(c),
{
    match c {
        Currency::Usd => "$",
        Currency::Inr => "Rs",
        Currency::Aed => "AED",
    }
}

/// A coverage key as a label: underscores read as spaces.
pub open spec fn coverage_label(key: Seq<char>) -> Seq<char> {
    key.map_values(|c: char| if c == '_' { ' ' } else { c })
}

fn label_of(key: &String) -> (r: String)
    ensures
        r@ == coverage_label(key@),
{
    let v = chars_of(key.as_str());
    let mut out: Vec<char> = Vec::new();
    let mut i: usize = 0;
    while i < v.len()
        invariant
            i <= v.len(),
            v@ == key@,
            out@ == coverage_label(v@.subrange(0, i as int)),
        decreases v.len() - i,
    {
        let c = v[i];
        out.push(if c == '_' { ' ' } else { c });
        i = i + 1;
        assert(out@ =~= coverage_label(v@.subrange(0, i as int)));
    }
    assert(v@.subrange(0, v@.len() as int) =~= v@);
    string_of(&out)
}

/// A coverage value as shown: a number after the prefix, a string as it
/// is, anything else as its JSON text.
pub open spec fn coverage_value_text(v: CoverageValue, number_prefix: Seq<char>) -> Seq<char> {
    match v {
        CoverageValue::Number(n) => number_prefix + n@,
        CoverageValue::Text(t) => t@,
        CoverageValue::Other(j) => j@,
    }
}

fn value_text(v: &CoverageValue, number_prefix: &str) -> (r: String)
    ensures
        r@ == coverage_value_text(*v, number_prefix@),
{
    match v {
        CoverageValue::Number(n) => {
            let mut s = String::from_str(number_prefix);
            s.append(n.as_str());
            s
        },
        CoverageValue::Text(t) => t.clone(),
        CoverageValue::Other(j) => j.clone(),
    }
}

// ── layout ─────────────────────────────────────────────────────────────────

pub open spec fn placed(text: Seq<char>, size: int, x: int, y: int, bold: bool) -> PlacementSpec {
    PlacementSpec { text, size_tenths: size, x_tenths: x, y_tenths: y, bold }
}

/// A bold label and its regular value on one line of the details block.
pub open spec fn detail_row(label: Seq<char>, value: Seq<char>, y: int) -> Seq<PlacementSpec> {
    seq![placed(label, 100, 200, y, true), placed(value, 100, 720, y, false)]
}

/// The coverage rows, 7 mm apart from `y` down, label at 20 mm and value
/// at 130 mm.
pub open spec fn coverage_rows(lines: Seq<CoverageLine>, y: int, number_prefix: Seq<char>) -> Seq<
    PlacementSpec,
>
    decreases lines.len(),
{
    if lines.len() == 0 {
        seq![]
    } else {
        let k = lines.len() - 1;
        coverage_rows(lines.drop_last(), y, number_prefix) + seq![
            placed(coverage_label(lines.last().key@), 100, 200, y - 70 * k, false),
            placed(coverage_value_text(lines.last().value, number_prefix), 100, 1300, y - 70 * k, false),
        ]
    }
}

/// The placements from the premium down, starting at `y` (just below the
/// last coverage row).
pub open spec fn closing_block(
    premium_label: Seq<char>,
    premium_text: Seq<char>,
    premium_x: int,
    signature: Seq<char>,
    date_text: Seq<char>,
    y: int,
) -> Seq<PlacementSpec> {
    seq![
        placed(premium_label, 120, 200, y - 80, true),
        placed(premium_text, 120, premium_x, y - 80, true),
        placed(signature, 100, 200, y - 280, false),
        placed("Date: "@ + date_text, 90, 200, y - 360, false),
    ]
}

/// The US declarations page (US Letter): header, named insured, address
/// if any, product, period, coverage table, premium, signature and date,
/// footer.
pub open spec fn us_declaration(
    policy: Policy,
    customer: Customer,
    product: Product,
    dates: DocumentDates,
    coverage: Seq<CoverageLine>,
) -> Seq<PlacementSpec> {
    let sym = currency_symbol_text(policy.currency);
    let header = seq![
        placed("SageSure Insurance"@, 220, 200, 2580, true),
        placed("DECLARATIONS PAGE"@, 140, 200, 2480, true),
        placed("Policy Number: "@ + policy.policy_number@, 110, 200, 2380, true),
    ];
    let insured = detail_row("Named Insured:"@, customer.name@, 2250);
    let (address, y1) = match customer.address {
        Some(a) => (detail_row("Address:"@, a@, 2170), 2090int),
        None => (seq![], 2170int),
    };
    let product_row = detail_row("Product:"@, product.name@, y1);
    let period = detail_row(
        "Policy Period:"@,
        us_date(dates.start) + "  \u{2013}  "@ + us_date(dates.end),
        y1 - 80,
    );
    let y2 = y1 - 240;
    let table_head = seq![
        placed("Coverage Detail"@, 110, 200, y2, true),
        placed("Limit / Amount"@, 110, 1300, y2, true),
    ];
    let rows = coverage_rows(coverage, y2 - 80, sym);
    let y3 = y2 - 80 - 70 * coverage.len();
    let closing = closing_block(
        "Annual Premium:"@,
        sym + cents_text(policy.premium_cents as int),
        850,
        "Authorized Representative: ____________________________"@,
        us_date(dates.created),
        y3,
    );
    let footer = seq![
        placed(
            "SageSure Insurance | info@sagesure.io | This document is computer-generated."@,
            80,
            200,
            120,
            false,
        ),
    ];
    header + insured + address + product_row + period + table_head + rows + closing + footer
}

/// The label of a national identity document on the India schedule.
pub open spec fn national_id_label(t: Option<NationalIdType>) -> Seq<char> {
    match t {
        Some(NationalIdType::Pan) => "PAN:"@,
        Some(NationalIdType::Aadhar) => "Aadhaar:"@,
        _ => "National ID:"@,
    }
}

/// The India policy schedule (A4): header, policyholder, mobile, address
/// and national id if any, product, period, coverage table in rupees,
/// premium, signature and date, footer.
pub open spec fn india_schedule(
    policy: Policy,
    customer: Customer,
    product: Product,
    dates: DocumentDates,
    coverage: Seq<CoverageLine>,
) -> Seq<PlacementSpec> {
    let header = seq![
        placed("SageSure Insurance India"@, 200, 200, 2730, true),
        placed("POLICY SCHEDULE"@, 140, 200, 2630, true),
        placed("Policy No: "@ + policy.policy_number@, 110, 200, 2530, true),
    ];
    let holder = detail_row("Policyholder:"@, customer.name@, 2400) + detail_row(
        "Mobile:"@,
        customer.phone@,
        2320,
    );
    let (address, y1) = match customer.address {
        Some(a) => (detail_row("Address:"@, a@, 2240), 2160int),
        None => (seq![], 2240int),
    };
    let (national, y2) = match customer.national_id {
        Some(n) => (detail_row(national_id_label(customer.national_id_type), n@, y1), y1 - 80),
        None => (seq![], y1),
    };
    let product_row = detail_row("Product:"@, product.name@, y2);
    let period = detail_row(
        "Policy Period:"@,
        india_date(dates.start) + "  to  "@ + india_date(dates.end),
        y2 - 80,
    );
    let y3 = y2 - 240;
    let table_head = seq![
        placed("Coverage"@, 110, 200, y3, true),
        placed("Sum Insured (INR)"@, 110, 1300, y3, true),
    ];
    let rows = coverage_rows(coverage, y3 - 80, "Rs "@);
    let y4 = y3 - 80 - 70 * coverage.len();
    let closing = closing_block(
        "Annual Premium (INR):"@,
        "Rs "@ + cents_text(policy.premium_cents as int),
        900,
        "Authorised Signatory: ____________________________"@,
        india_date(dates.created),
        y4,
    );
    let footer = seq![
        placed(
            "SageSure Insurance India | info@sagesure.io | IRDAI Reg. No. XXXX"@,
            80,
            200,
            120,
            false,
        ),
    ];
    header + holder + address + national + product_row + period + table_head + rows + closing
        + footer
}

fn put(
    out: &mut Vec<TextPlacement>,
    text: String,
    size_tenths: u32,
    x_tenths: i64,
    y_tenths: i128,
    bold: bool,
)
    ensures
        placements_view(final(out)@) == placements_view(old(out)@).push(
            placed(text@, size_tenths as int, x_tenths as int, y_tenths as int, bold),
        ),
{
    let ghost before = out@;
    out.push(TextPlacement { text, size_tenths, x_tenths, y_tenths, bold });
    assert(placements_view(out@) =~= placements_view(before).push(
        placed(text@, size_tenths as int, x_tenths as int, y_tenths as int, bold),
    ));
}

fn put_row(out: &mut Vec<TextPlacement>, label: &str, value: String, y: i128)
    ensures
        placements_view(final(out)@) == placements_view(old(out)@) + detail_row(label@, value@, y as int),
{
    let ghost before = placements_view(out@);
    put(out, String::from_str(label), 100, 200, y, true);
    put(out, value, 100, 720, y, false);
    assert(placements_view(out@) =~= before + detail_row(label@, value@, y as int));
}

fn put_coverage(out: &mut Vec<TextPlacement>, lines: &Vec<CoverageLine>, y: i128, number_prefix: &str)
    requires
        y - 70 * lines@.len() >= i128::MIN,
        y <= i128::MAX,
    ensures
        placements_view(final(out)@) == placements_view(old(out)@) + coverage_rows(
            lines@,
            y as int,
            number_prefix@,
        ),
{
    let ghost before = placements_view(out@);
    let mut i: usize = 0;
    let mut row_y: i128 = y;
    assert(lines@.subrange(0, 0) =~= Seq::<CoverageLine>::empty());
    assert(placements_view(out@) =~= before + coverage_rows(Seq::<CoverageLine>::empty(), y as int, number_prefix@));
    while i < lines.len()
        invariant
            i <= lines.len(),
            row_y == y - 70 * i,
            y - 70 * lines@.len() >= i128::MIN,
            placements_view(out@) == before + coverage_rows(
                lines@.subrange(0, i as int),
                y as int,
                number_prefix@,
            ),
        decreases lines.len() - i,
    {
        let ghost cur = lines@.subrange(0, i + 1);
        assert(cur.drop_last() =~= lines@.subrange(0, i as int));
        assert(cur.last() == lines@[i as int]);
        let line = &lines[i];
        put(out, label_of(&line.key), 100, 200, row_y, false);
        put(out, value_text(&line.value, number_prefix), 100, 1300, row_y, false);
        assert(placements_view(out@) =~= before + coverage_rows(cur, y as int, number_prefix@));
        i = i + 1;
        row_y = row_y - 70;
    }
    assert(lines@.subrange(0, lines@.len() as int) =~= lines@);
}

/// Dates a document can print: months and days below 100.
pub open spec fn printable(d: DocumentDates) -> bool {
    &&& d.start.month < 100 && d.start.day < 100
    &&& d.end.month < 100 && d.end.day < 100
    &&& d.created.month < 100 && d.created.day < 100
}

fn date_text(d: CivilDate, day_first: bool) -> (r: String)
    requires
        d.month < 100,
        d.day < 100,
    ensures
        day_first ==> r@ == india_date(d),
        !day_first ==> r@ == us_date(d),
{
    let mut s = String::new();
    push_date(&mut s, d, day_first);
    s
}

/// Lays out the US declarations page.
#[verifier::rlimit(60)]
pub fn generate_us_declaration(
    policy: &Policy,
    customer: &Customer,
    product: &Product,
    dates: &DocumentDates,
    coverage: &Vec<CoverageLine>,
) -> (r: PagePlan)
    requires
        printable(*dates),
    ensures
        r.title@ == "Policy Declaration"@,
        r.width_tenths == 2159,
        r.height_tenths == 2794,
        placements_view(r.placements@) == us_declaration(*policy, *customer, *product, *dates, coverage@),
{
    let sym = currency_symbol(policy.currency);
    let mut out: Vec<TextPlacement> = Vec::new();
    put(&mut out, String::from_str("SageSure Insurance"), 220, 200, 2580, true);
    put(&mut out, String::from_str("DECLARATIONS PAGE"), 140, 200, 2480, true);
    let mut pn = String::from_str("Policy Number: ");
    pn.append(policy.policy_number.as_str());
    put(&mut out, pn, 110, 200, 2380, true);
    let mut y: i128 = 2250;
    put_row(&mut out, "Named Insured:", customer.name.clone(), y);
    y = y - 80;
    if let Some(addr) = &customer.address {
        put_row(&mut out, "Address:", addr.clone(), y);
        y = y - 80;
    }
    put_row(&mut out, "Product:", product.name.clone(), y);
    y = y - 80;
    let mut period = date_text(dates.start, false);
    period.append("  \u{2013}  ");
    period.append(date_text(dates.end, false).as_str());
    put_row(&mut out, "Policy Period:", period, y);
    y = y - 160;
    put(&mut out, String::from_str("Coverage Detail"), 110, 200, y, true);
    put(&mut out, String::from_str("Limit / Amount"), 110, 1300, y, true);
    y = y - 80;
    let n = coverage.len();
    assert(n == coverage@.len() && n <= 0xffff_ffff_ffff_ffff);
    put_coverage(&mut out, coverage, y, sym);
    y = y - 70 * (n as i128);
    y = y - 80;
    let mut premium = String::from_str(sym);
    push_cents(&mut premium, policy.premium_cents);
    put(&mut out, String::from_str("Annual Premium:"), 120, 200, y, true);
    put(&mut out, premium, 120, 850, y, true);
    y = y - 200;
    put(
        &mut out,
        String::from_str("Authorized Representative: ____________________________"),
        100,
        200,
        y,
        false,
    );
    y = y - 80;
    let mut signed = String::from_str("Date: ");
    signed.append(date_text(dates.created, false).as_str());
    put(&mut out, signed, 90, 200, y, false);
    put(
        &mut out,
        String::from_str(
            "SageSure Insurance | info@sagesure.io | This document is computer-generated.",
        ),
        80,
        200,
        120,
        false,
    );
    assert(placements_view(out@) =~= us_declaration(*policy, *customer, *product, *dates, coverage@));
    PagePlan {
        title: String::from_str("Policy Declaration"),
        width_tenths: 2159,
        height_tenths: 2794,
        placements: out,
    }
}

fn national_id_label_exec(t: &Option<NationalIdType>) -> (r: &'static str)
    ensures
        r@ == national_id_label(*t),
{
    match t {
        Some(NationalIdType::Pan) => "PAN:",
        Some(NationalIdType::Aadhar) => "Aadhaar:",
        _ => "National ID:",
    }
}

/// Lays out the India policy schedule.
#[verifier::rlimit(60)]
pub fn generate_india_schedule(
    policy: &Policy,
    customer: &Customer,
    product: &Product,
    dates: &DocumentDates,
    coverage: &Vec<CoverageLine>,
) -> (r: PagePlan)
    requires
        printable(*dates),
    ensures
        r.title@ == "Policy Schedule"@,
        r.width_tenths == 2100,
        r.height_tenths == 2970,
        placements_view(r.placements@) == india_schedule(*policy, *customer, *product, *dates, coverage@),
{
    let mut out: Vec<TextPlacement> = Vec::new();
    put(&mut out, String::from_str("SageSure Insurance India"), 200, 200, 2730, true);
    put(&mut out, String::from_str("POLICY SCHEDULE"), 140, 200, 2630, true);
    let mut pn = String::from_str("Policy No: ");
    pn.append(policy.policy_number.as_str());
    put(&mut out, pn, 110, 200, 2530, true);
    let mut y: i128 = 2400;
    put_row(&mut out, "Policyholder:", customer.name.clone(), y);
    y = y - 80;
    put_row(&mut out, "Mobile:", customer.phone.clone(), y);
    y = y - 80;
    if let Some(addr) = &customer.address {
        put_row(&mut out, "Address:", addr.clone(), y);
        y = y - 80;
    }
    if let Some(nid) = &customer.national_id {
        put_row(&mut out, national_id_label_exec(&customer.national_id_type), nid.clone(), y);
        y = y - 80;
    }
    put_row(&mut out, "Product:", product.name.clone(), y);
    y = y - 80;
    let mut period = date_text(dates.start, true);
    period.append("  to  ");
    period.append(date_text(dates.end, true).as_str());
    put_row(&mut out, "Policy Period:", period, y);
    y = y - 160;
    put(&mut out, String::from_str("Coverage"), 110, 200, y, true);
    put(&mut out, String::from_str("Sum Insured (INR)"), 110, 1300, y, true);
    y = y - 80;
    let n = coverage.len();
    assert(n == coverage@.len() && n <= 0xffff_ffff_ffff_ffff);
    put_coverage(&mut out, coverage, y, "Rs ");
    y = y - 70 * (n as i128);
    y = y - 80;
    let mut premium = String::from_str("Rs ");
    push_cents(&mut premium, policy.premium_cents);
    put(&mut out, String::from_str("Annual Premium (INR):"), 120, 200, y, true);
    put(&mut out, premium, 120, 900, y, true);
    y = y - 200;
    put(
        &mut out,
        String::from_str("Authorised Signatory: ____________________________"),
        100,
        200,
        y,
        false,
    );
    y = y - 80;
    let mut signed = String::from_str("Date: ");
    signed.append(date_text(dates.created, true).as_str());
    put(&mut out, signed, 90, 200, y, false);
    put(
        &mut out,
        String::from_str("SageSure Insurance India | info@sagesure.io | IRDAI Reg. No. XXXX"),
        80,
        200,
        120,
        false,
    );
    assert(placements_view(out@) =~= india_schedule(*policy, *customer, *product, *dates, coverage@));
    PagePlan {
        title: String::from_str("Policy Schedule"),
        width_tenths: 2100,
        height_tenths: 2970,
        placements: out,
    }
}

/// Which document a customer gets.
#[derive(Debug, Clone, Copy, PartialEq, Eq, Structural)]
pub enum DocumentKind {
    UsDeclaration,
    IndiaSchedule,
}

/// Customers in India (country `IN` in any ASCII case) get the India
/// schedule; everyone else the US declarations page.
pub fn document_kind(country: &str) -> (r: DocumentKind)
    ensures
        r == (if eq_ignore_ascii_case_spec(country@, "IN"@) {
            DocumentKind::IndiaSchedule
        } else {
            DocumentKind::UsDeclaration
        }),
{
    if eq_ignore_ascii_case(country, "IN") {
        DocumentKind::IndiaSchedule
    } else {
        DocumentKind::UsDeclaration
    }
}

/// Lays out the document the customer gets (see `document_kind`).
pub fn render_policy_document(
    policy: &Policy,
    customer: &Customer,
    product: &Product,
    dates: &DocumentDates,
    coverage: &Vec<CoverageLine>,
) -> (r: PagePlan)
    requires
        printable(*dates),
    ensures
        eq_ignore_ascii_case_spec(customer.country@, "IN"@) ==> placements_view(r.placements@)
            == india_schedule(*policy, *customer, *product, *dates, coverage@),
        !eq_ignore_ascii_case_spec(customer.country@, "IN"@) ==> placements_view(r.placements@)
            == us_declaration(*policy, *customer, *product, *dates, coverage@),
{
    match document_kind(customer.country.as_str()) {
        DocumentKind::IndiaSchedule => generate_india_schedule(policy, customer, product, dates, coverage),
        DocumentKind::UsDeclaration => generate_us_declaration(policy, customer, product, dates, coverage),
    }
}

/// The public URL prefix of the document container.
pub fn documents_base_url(storage_account: &str, container: &str) -> (r: String)
    ensures
        r@ == "https://"@ + storage_account@ + ".blob.core.windows.net/"@ + container@,
{
    let mut s = String::from_str("https://");
    s.append(storage_account);
    s.append(".blob.core.windows.net/");
    s.append(container);
    s
}

/// A policy document is stored as `{policy number}.pdf`.
pub fn document_blob_name(policy_number: &str) -> (r: String)
    ensures
        r@ == policy_number@ + ".pdf"@,
{
    let mut s = String::from_str(policy_number);
    s.append(".pdf");
    s
}

/// The public URL of a stored document.
pub fn document_url(base_url: &str, blob_name: &str) -> (r: String)
    ensures
        r@ == base_url@ + "/"@ + blob_name@,
{
    let mut s = String::from_str(base_url);
    s.append("/");
    s.append(blob_name);
    s
}

} // verus!
