//! The shared document pipeline (FNOL and underwriting): its domain
//! configuration, the rules each stage applies to what the outside
//! services return, and KB grounding of conclusions.
//!
//! The services themselves (Content Understanding, the model endpoint,
//! search, page rasterization) are called at the edge; the decisions on
//! their answers are made here.

use std::collections::HashSet;
use vstd::prelude::*;
use crate::insurance::opt_text;
use crate::text::{
    chars_eq_str, chars_of, contains_chars, contains_text, string_of, trim_chars, trim_seq,
    ascii_lowercase_chars, ascii_lower_seq, trim_trailing_slashes, without_trailing_slashes,
};

verus! {

broadcast use vstd::std_specs::hash::group_hash_axioms;

#[derive(Debug, Clone, Copy, PartialEq, Eq, Structural)]
pub enum Domain {
    Fnol,
    Underwriting,
}

#[derive(Debug, Clone, Copy, PartialEq, Eq, Structural)]
pub enum OutputKind {
    HubspotTicket,
    HubspotDeal,
}

/// The one thing that varies between FNOL and underwriting.
#[derive(Debug)]
pub struct PipelineConfig {
    pub domain: Domain,
    /// Looked up with `schema_for_key`; unknown keys skip the
    /// schema-constrained extraction.
    pub field_schema_key: String,
    /// `insurance-{type}-kb` per domain, used by the caller's scoring.
    pub kb_index: String,
    pub output_kind: OutputKind,
}

#[derive(Debug, PartialEq, Eq)]
pub enum CuError {
    RequestFailed(String),
    Timeout(u64),
    AnalysisFailed(String),
    AuthFailed(String),
}

#[derive(Debug, Clone, Copy, PartialEq, Eq, Structural)]
pub struct CuSpan {
    pub offset: i64,
    pub length: i64,
}

#[derive(Debug, PartialEq, Eq)]
pub enum StructuredExtractionError {
    GptFailed(String),
    NoContent,
    InvalidJson(String),
}

#[derive(Debug, PartialEq, Eq)]
pub enum KbScoringError {
    SearchFailed(String),
    GptFailed(String),
    InvalidJson(String),
}

#[derive(Debug, PartialEq, Eq)]
pub enum PdfRenderError {
    TempWriteFailed(String),
    PdftoppmFailed(String),
    NoPages,
}

#[derive(Debug, PartialEq, Eq)]
pub enum PipelineError {
    CuFailed(CuError),
    ExtractionFailed(StructuredExtractionError),
    NoContent,
}

fn prefixed(prefix: &str, detail: &String) -> (r: String)
    ensures
        r@ == prefix@ + detail@,
{
    let mut s = String::from_str(prefix);
    s.append(detail.as_str());
    s
}

impl CuError {
    pub open spec fn text(self) -> Seq<char> {
        match self {
            CuError::RequestFailed(m) => "CU request failed: "@ + m@,
            CuError::Timeout(secs) => "CU polling timed out after "@ + crate::text::decimal(secs as nat)
                + "s"@,
            CuError::AnalysisFailed(m) => "CU analysis failed: "@ + m@,
            CuError::AuthFailed(m) => "CU auth token acquisition failed: "@ + m@,
        }
    }

    /// The error's text.
    pub fn message(&self) -> (r: String)
        ensures
            r@ == self.text(),
    {
        match self {
            CuError::RequestFailed(m) => prefixed("CU request failed: ", m),
            CuError::Timeout(secs) => {
                let mut s = String::from_str("CU polling timed out after ");
                crate::text::push_decimal(&mut s, *secs as u128);
                s.append("s");
                s
            },
            CuError::AnalysisFailed(m) => prefixed("CU analysis failed: ", m),
            CuError::AuthFailed(m) => prefixed("CU auth token acquisition failed: ", m),
        }
    }
}

impl StructuredExtractionError {
    pub open spec fn text(self) -> Seq<char> {
        match self {
            StructuredExtractionError::GptFailed(m) => "GPT call failed: "@ + m@,
            StructuredExtractionError::NoContent => "no content in GPT response"@,
            StructuredExtractionError::InvalidJson(m) => "response was not valid JSON matching the schema: "@
                + m@,
        }
    }

    /// The error's text.
    pub fn message(&self) -> (r: String)
        ensures
            r@ == self.text(),
    {
        match self {
            StructuredExtractionError::GptFailed(m) => prefixed("GPT call failed: ", m),
            StructuredExtractionError::NoContent => String::from_str("no content in GPT response"),
            StructuredExtractionError::InvalidJson(m) => prefixed(
                "response was not valid JSON matching the schema: ",
                m,
            ),
        }
    }
}

impl PipelineError {
    /// The error's text.
    pub fn message(&self) -> (r: String)
        ensures
            r@ == (match *self {
                PipelineError::CuFailed(e) => "CU extraction failed: "@ + e.text(),
                PipelineError::ExtractionFailed(e) => "structured extraction failed: "@ + e.text(),
                PipelineError::NoContent => "no extractable content produced by any stage"@,
            }),
    {
        match self {
            PipelineError::CuFailed(e) => prefixed("CU extraction failed: ", &e.message()),
            PipelineError::ExtractionFailed(e) => prefixed(
                "structured extraction failed: ",
                &e.message(),
            ),
            PipelineError::NoContent => String::from_str(
                "no extractable content produced by any stage",
            ),
        }
    }
}

// ── OCR stage ──────────────────────────────────────────────────────────────

/// Every content type, PDF or image, goes to the same layout analyzer.
pub fn select_analyzer(content_type: &str) -> (r: &'static str)
    ensures
        r@ == "prebuilt-layout"@,
{
    "prebuilt-layout"
}

/// The Content Understanding endpoint as the client keeps it: without
/// trailing slashes.
pub fn cu_endpoint(endpoint: &str) -> (r: String)
    ensures
        r@ == without_trailing_slashes(endpoint@),
{
    trim_trailing_slashes(endpoint)
}

/// The request that starts an analysis.
pub fn analyze_url(endpoint: &str, analyzer_id: &str, api_version: &str) -> (r: String)
    ensures
        r@ == endpoint@ + "/contentunderstanding/analyzers/"@ + analyzer_id@ + ":analyze?api-version="@
            + api_version@,
{
    let mut s = String::from_str(endpoint);
    s.append("/contentunderstanding/analyzers/");
    s.append(analyzer_id);
    s.append(":analyze?api-version=");
    s.append(api_version);
    s
}

/// What an analysis's status field says.
#[derive(Debug, Clone, Copy, PartialEq, Eq, Structural)]
pub enum PollStatus {
    Succeeded,
    Failed,
    Pending,
}

/// What `str::to_lowercase` returns for a text.
pub uninterp spec fn unicode_lowercase(s: Seq<char>) -> Seq<char>;

/// `str::to_lowercase` (full Unicode lowercase mapping). Trusted: the
/// result is `unicode_lowercase` of the text.
#[verifier::external_body]
pub(crate) fn to_lowercase(s: &str) -> (r: String)
    ensures
        r@ == unicode_lowercase(s@),
{
    s.to_lowercase()
}

/// `succeeded` and `failed` (in any case) end the polling; anything else
/// is still running.
pub fn poll_status(status: &str) -> (r: PollStatus)
    ensures
        unicode_lowercase(status@) == "succeeded"@ ==> r == PollStatus::Succeeded,
        unicode_lowercase(status@) == "failed"@ ==> r == PollStatus::Failed,
        unicode_lowercase(status@) != "succeeded"@ && unicode_lowercase(status@) != "failed"@ ==> r
            == PollStatus::Pending,
{
    proof {
        reveal_strlit("succeeded");
        reveal_strlit("failed");
        assert("failed"@.len() == 6 && "succeeded"@.len() == 9);
    }
    let lowered = to_lowercase(status);
    let lower = chars_of(lowered.as_str());
    assert(lower@ == unicode_lowercase(status@));
    if chars_eq_str(&lower, "succeeded") {
        PollStatus::Succeeded
    } else if chars_eq_str(&lower, "failed") {
        PollStatus::Failed
    } else {
        PollStatus::Pending
    }
}

/// The wait before the next poll: double the last one, at most 4 seconds
/// (in milliseconds).
pub fn next_poll_interval_ms(current_ms: u64) -> (r: u64)
    requires
        current_ms <= u64::MAX / 2,
    ensures
        r == (if 2 * current_ms < 4000 {
            2 * current_ms
        } else {
            4000
        }),
{
    let doubled = current_ms * 2;
    if doubled < 4000 {
        doubled
    } else {
        4000
    }
}

/// Polling has run out of time once more than `timeout_secs` seconds
/// (in nanoseconds elapsed) have passed.
pub fn poll_timed_out(elapsed_nanos: u128, timeout_secs: u64) -> (r: bool)
    ensures
        r == (elapsed_nanos > timeout_secs * 1_000_000_000),
{
    elapsed_nanos > (timeout_secs as u128) * 1_000_000_000
}

// ── page images ────────────────────────────────────────────────────────────

/// Where the extraction stage's page images come from.
#[derive(Debug, Clone, Copy, PartialEq, Eq, Structural)]
pub enum PageImageSource {
    /// Rasterize the PDF's pages.
    RasterizePdf,
    /// The upload is itself the one page image.
    Upload,
    /// No page images.
    NoImages,
}

pub open spec fn direct_image_types() -> Seq<Seq<char>> {
    seq![
        "image/png"@,
        "image/jpeg"@,
        "image/jpg"@,
        "image/bmp"@,
        "image/gif"@,
        "image/tiff"@,
        "image/webp"@,
    ]
}

/// PDFs (by ASCII-case-insensitive content type) are rasterized; the
/// listed image types pass through as their own page; nothing else has
/// page images.
pub open spec fn page_image_source_of(content_type: Seq<char>) -> PageImageSource {
    if ascii_lower_seq(content_type) == "application/pdf"@ {
        PageImageSource::RasterizePdf
    } else if direct_image_types().contains(ascii_lower_seq(content_type)) {
        PageImageSource::Upload
    } else {
        PageImageSource::NoImages
    }
}

pub fn page_image_source(content_type: &str) -> (r: PageImageSource)
    ensures
        r == page_image_source_of(content_type@),
{
    let lower = ascii_lowercase_chars(&chars_of(content_type));
    if chars_eq_str(&lower, "application/pdf") {
        return PageImageSource::RasterizePdf;
    }
    let types: [&str; 7] = [
        "image/png",
        "image/jpeg",
        "image/jpg",
        "image/bmp",
        "image/gif",
        "image/tiff",
        "image/webp",
    ];
    let ghost all = direct_image_types();
    assert(forall|k: int| 0 <= k < 7 ==> #[trigger] types@[k]@ == all[k]);
    let mut i: usize = 0;
    while i < 7
        invariant
            i <= 7,
            all == direct_image_types(),
            lower@ == ascii_lower_seq(content_type@),
            lower@ != "application/pdf"@,
            forall|k: int| 0 <= k < 7 ==> #[trigger] types@[k]@ == all[k],
            forall|k: int| 0 <= k < i ==> all[k] != lower@,
        decreases 7 - i,
    {
        if chars_eq_str(&lower, types[i]) {
            assert(all.contains(lower@)) by {
                assert(all[i as int] == lower@);
            }
            return PageImageSource::Upload;
        }
        i = i + 1;
    }
    assert(!all.contains(lower@));
    PageImageSource::NoImages
}

// ── extraction stage ───────────────────────────────────────────────────────

/// The field schemas, one per coarse line of business.
#[derive(Debug, Clone, Copy, PartialEq, Eq, Structural)]
pub enum FieldSchema {
    LifeInsurance,
    HealthInsurance,
    PropertyClaim,
    AutoFnol,
    MarineCargoFnol,
}

impl FieldSchema {
    /// The schema's file name.
    pub fn file_name(&self) -> (r: &'static str)
        ensures
            r@ == (match *self {
                FieldSchema::LifeInsurance => "life_insurance.json"@,
                FieldSchema::HealthInsurance => "health_insurance.json"@,
                FieldSchema::PropertyClaim => "property_claim.json"@,
                FieldSchema::AutoFnol => "auto_fnol.json"@,
                FieldSchema::MarineCargoFnol => "marine_cargo_fnol.json"@,
            }),
    {
        match self {
            FieldSchema::LifeInsurance => "life_insurance.json",
            FieldSchema::HealthInsurance => "health_insurance.json",
            FieldSchema::PropertyClaim => "property_claim.json",
            FieldSchema::AutoFnol => "auto_fnol.json",
            FieldSchema::MarineCargoFnol => "marine_cargo_fnol.json",
        }
    }
}

pub open spec fn schema_of_key(key: Seq<char>) -> Option<FieldSchema> {
    if key == "life"@ {
        Some(FieldSchema::LifeInsurance)
    } else if key == "health"@ {
        Some(FieldSchema::HealthInsurance)
    } else if key == "property"@ || key == "home"@ {
        Some(FieldSchema::PropertyClaim)
    } else if key == "auto"@ || key == "motor"@ {
        Some(FieldSchema::AutoFnol)
    } else if key == "marine"@ {
        Some(FieldSchema::MarineCargoFnol)
    } else {
        None
    }
}

/// Maps a line-of-business key (exactly as written) to its schema.
pub fn schema_for_key(key: &str) -> (r: Option<FieldSchema>)
    ensures
        r == schema_of_key(key@),
{
    let k = chars_of(key);
    if chars_eq_str(&k, "life") {
        Some(FieldSchema::LifeInsurance)
    } else if chars_eq_str(&k, "health") {
        Some(FieldSchema::HealthInsurance)
    } else if chars_eq_str(&k, "property") || chars_eq_str(&k, "home") {
        Some(FieldSchema::PropertyClaim)
    } else if chars_eq_str(&k, "auto") || chars_eq_str(&k, "motor") {
        Some(FieldSchema::AutoFnol)
    } else if chars_eq_str(&k, "marine") {
        Some(FieldSchema::MarineCargoFnol)
    } else {
        None
    }
}

/// Bytes of `c` in UTF-8.
pub open spec fn utf8_len(c: char) -> nat {
    if (c as u32) < 0x80 {
        1
    } else if (c as u32) < 0x800 {
        2
    } else if (c as u32) < 0x10000 {
        3
    } else {
        4
    }
}

/// Bytes of `s` in UTF-8.
pub open spec fn utf8_bytes(s: Seq<char>) -> nat
    decreases s.len(),
{
    if s.len() == 0 {
        0
    } else {
        utf8_bytes(s.drop_last()) + utf8_len(s.last())
    }
}

fn utf8_len_exec(c: char) -> (r: usize)
    ensures
        r == utf8_len(c),
{
    let u = c as u32;
    if u < 0x80 {
        1
    } else if u < 0x800 {
        2
    } else if u < 0x10000 {
        3
    } else {
        4
    }
}

/// The longest leading part of `s` whose UTF-8 encoding takes at most
/// `max_bytes` bytes (never splitting a character).
pub fn safe_truncate(s: &str, max_bytes: usize) -> (r: String)
    ensures
        r@.len() <= s@.len(),
        r@ == s@.subrange(0, r@.len() as int),
        utf8_bytes(r@) <= max_bytes,
        r@.len() == s@.len() || utf8_bytes(s@.subrange(0, r@.len() as int + 1)) > max_bytes,
{
    let v = chars_of(s);
    let mut used: usize = 0;
    let mut i: usize = 0;
    assert(v@.subrange(0, 0) =~= Seq::<char>::empty());
    while i < v.len()
        invariant
            i <= v.len(),
            v@ == s@,
            used == utf8_bytes(v@.subrange(0, i as int)),
            used <= max_bytes,
        decreases v.len() - i,
    {
        let n = utf8_len_exec(v[i]);
        let ghost next = v@.subrange(0, i + 1);
        assert(next.drop_last() =~= v@.subrange(0, i as int));
        if n > max_bytes - used {
            let mut r: Vec<char> = Vec::new();
            let mut j: usize = 0;
            while j < i
                invariant
                    j <= i,
                    i < v.len(),
                    r@ == v@.subrange(0, j as int),
                decreases i - j,
            {
                r.push(v[j]);
                j = j + 1;
                assert(r@ =~= v@.subrange(0, j as int));
            }
            return string_of(&r);
        }
        used = used + n;
        i = i + 1;
    }
    assert(v@.subrange(0, v@.len() as int) =~= v@);
    string_of(&v)
}

/// `s` with every leading copy of `p` removed (`str::trim_start_matches`).
pub open spec fn strip_leading(s: Seq<char>, p: Seq<char>) -> Seq<char>
    decreases s.len(),
{
    if p.len() > 0 && s.len() >= p.len() && s.subrange(0, p.len() as int) == p {
        strip_leading(s.subrange(p.len() as int, s.len() as int), p)
    } else {
        s
    }
}

/// `s` with every trailing copy of `p` removed (`str::trim_end_matches`).
pub open spec fn strip_trailing(s: Seq<char>, p: Seq<char>) -> Seq<char>
    decreases s.len(),
{
    if p.len() > 0 && s.len() >= p.len() && s.subrange(s.len() - p.len(), s.len() as int) == p {
        strip_trailing(s.subrange(0, s.len() - p.len()), p)
    } else {
        s
    }
}

fn starts_with_at(v: &Vec<char>, start: usize, end: usize, p: &Vec<char>) -> (r: bool)
    requires
        start <= end <= v.len(),
    ensures
        r == (p@.len() <= end - start && v@.subrange(start as int, start + p@.len()) == p@),
{
    if p.len() > end - start {
        return false;
    }
    let mut k: usize = 0;
    while k < p.len()
        invariant
            k <= p.len(),
            start + p.len() <= end,
            end <= v.len(),
            forall|t: int| 0 <= t < k ==> v@[start + t] == p@[t],
        decreases p.len() - k,
    {
        if v[start + k] != p[k] {
            assert(v@.subrange(start as int, start + p@.len())[k as int] != p@[k as int]);
            return false;
        }
        k = k + 1;
    }
    assert(v@.subrange(start as int, start + p@.len()) =~= p@);
    true
}

fn ends_with_at(v: &Vec<char>, start: usize, end: usize, p: &Vec<char>) -> (r: bool)
    requires
        start <= end <= v.len(),
    ensures
        r == (p@.len() <= end - start && v@.subrange(end - p@.len(), end as int) == p@),
{
    if p.len() > end - start {
        return false;
    }
    let base = end - p.len();
    let mut k: usize = 0;
    while k < p.len()
        invariant
            k <= p.len(),
            base == end - p.len(),
            end <= v.len(),
            forall|t: int| 0 <= t < k ==> v@[base + t] == p@[t],
        decreases p.len() - k,
    {
        if v[base + k] != p[k] {
            assert(v@.subrange(base as int, end as int)[k as int] != p@[k as int]);
            return false;
        }
        k = k + 1;
    }
    assert(v@.subrange(base as int, end as int) =~= p@);
    true
}

fn slice_chars(v: &Vec<char>, start: usize, end: usize) -> (r: Vec<char>)
    requires
        start <= end <= v.len(),
    ensures
        r@ == v@.subrange(start as int, end as int),
{
    let mut r: Vec<char> = Vec::new();
    let mut i: usize = start;
    while i < end
        invariant
            start <= i <= end,
            end <= v.len(),
            r@ == v@.subrange(start as int, i as int),
        decreases end - i,
    {
        r.push(v[i]);
        i = i + 1;
        assert(r@ =~= v@.subrange(start as int, i as int));
    }
    r
}

fn strip_leading_chars(v: &Vec<char>, p: &Vec<char>) -> (r: Vec<char>)
    ensures
        r@ == strip_leading(v@, p@),
{
    let mut start: usize = 0;
    assert(v@.subrange(0, v@.len() as int) =~= v@);
    while p.len() > 0 && starts_with_at(v, start, v.len(), p)
        invariant
            start <= v.len(),
            strip_leading(v@.subrange(start as int, v@.len() as int), p@) == strip_leading(v@, p@),
        decreases v.len() - start,
    {
        let ghost cur = v@.subrange(start as int, v@.len() as int);
        assert(cur.subrange(0, p@.len() as int) =~= v@.subrange(start as int, start + p@.len()));
        assert(cur.subrange(p@.len() as int, cur.len() as int) =~= v@.subrange(
            start + p@.len(),
            v@.len() as int,
        ));
        start = start + p.len();
    }
    let ghost cur = v@.subrange(start as int, v@.len() as int);
    assert(p@.len() > 0 && cur.len() >= p@.len() ==> cur.subrange(0, p@.len() as int)
        =~= v@.subrange(start as int, start + p@.len()));
    slice_chars(v, start, v.len())
}

fn strip_trailing_chars(v: &Vec<char>, p: &Vec<char>) -> (r: Vec<char>)
    ensures
        r@ == strip_trailing(v@, p@),
{
    let mut end: usize = v.len();
    assert(v@.subrange(0, v@.len() as int) =~= v@);
    while p.len() > 0 && ends_with_at(v, 0, end, p)
        invariant
            end <= v.len(),
            strip_trailing(v@.subrange(0, end as int), p@) == strip_trailing(v@, p@),
        decreases end,
    {
        let ghost cur = v@.subrange(0, end as int);
        assert(cur.subrange(cur.len() - p@.len(), cur.len() as int) =~= v@.subrange(
            end - p@.len(),
            end as int,
        ));
        assert(cur.subrange(0, cur.len() - p@.len()) =~= v@.subrange(0, end - p@.len()));
        end = end - p.len();
    }
    let ghost cur = v@.subrange(0, end as int);
    assert(p@.len() > 0 && cur.len() >= p@.len() ==> cur.subrange(cur.len() - p@.len(), cur.len() as int)
        =~= v@.subrange(end - p@.len(), end as int));
    slice_chars(v, 0, end)
}

/// A model answer cleaned for JSON parsing: trimmed, leading ```` ```json ````
/// and ```` ``` ```` fences and trailing ```` ``` ```` fences removed, trimmed
/// again.
pub open spec fn cleaned_model_text(content: Seq<char>) -> Seq<char> {
    trim_seq(
        strip_trailing(
            strip_leading(strip_leading(trim_seq(content), "```json"@), "```"@),
            "```"@,
        ),
    )
}

pub fn clean_model_json(content: &str) -> (r: String)
    ensures
        r@ == cleaned_model_text(content@),
{
    let fence_json = chars_of("```json");
    let fence = chars_of("```");
    let a = trim_chars(&chars_of(content));
    let b = strip_leading_chars(&a, &fence_json);
    let c = strip_leading_chars(&b, &fence);
    let d = strip_trailing_chars(&c, &fence);
    let e = trim_chars(&d);
    string_of(&e)
}

// ── evaluation ─────────────────────────────────────────────────────────────

/// Trimmed and lowercased, for comparing extracted values with OCR lines.
pub open spec fn normalized(s: Seq<char>) -> Seq<char> {
    unicode_lowercase(trim_seq(s))
}

pub fn normalize(s: &str) -> (r: String)
    ensures
        r@ == normalized(s@),
{
    let t = string_of(&trim_chars(&chars_of(s)));
    to_lowercase(t.as_str())
}

/// The positions of the lines whose normalized text satisfies `pred`, in
/// order.
pub open spec fn positions_where(lines: Seq<Seq<char>>, pred: spec_fn(Seq<char>) -> bool) -> Seq<int>
    decreases lines.len(),
{
    if lines.len() == 0 {
        seq![]
    } else if pred(normalized(lines.last())) {
        positions_where(lines.drop_last(), pred).push(lines.len() - 1)
    } else {
        positions_where(lines.drop_last(), pred)
    }
}

/// Lines equal to `needle`.
pub open spec fn equal_to(needle: Seq<char>) -> spec_fn(Seq<char>) -> bool {
    |l: Seq<char>| l == needle
}

/// Lines containing `needle`.
pub open spec fn containing(needle: Seq<char>) -> spec_fn(Seq<char>) -> bool {
    |l: Seq<char>| contains_text(l, needle)
}

/// The OCR lines a value was read from: none for a blank value; else the
/// lines equal to it once both are normalized, or failing any, the lines
/// containing it.
pub open spec fn matching_lines(value: Seq<char>, lines: Seq<Seq<char>>) -> Seq<int> {
    let needle = normalized(value);
    if trim_seq(value).len() == 0 {
        seq![]
    } else if positions_where(lines, equal_to(needle)).len() > 0 {
        positions_where(lines, equal_to(needle))
    } else {
        positions_where(lines, containing(needle))
    }
}

pub open spec fn index_view(v: Seq<usize>) -> Seq<int> {
    v.map_values(|i: usize| i as int)
}

fn positions_matching(lines: &Vec<String>, needle: &Vec<char>, exact: bool) -> (r: Vec<usize>)
    ensures
        exact ==> index_view(r@) == positions_where(
            crate::text::strings_view(lines@),
            equal_to(needle@),
        ),
        !exact ==> index_view(r@) == positions_where(
            crate::text::strings_view(lines@),
            containing(needle@),
        ),
{
    let ghost lv = crate::text::strings_view(lines@);
    let ghost pred = if exact {
        equal_to(needle@)
    } else {
        containing(needle@)
    };
    let mut r: Vec<usize> = Vec::new();
    let mut i: usize = 0;
    assert(lv.subrange(0, 0) =~= Seq::<Seq<char>>::empty());
    assert(index_view(r@) =~= Seq::<int>::empty());
    while i < lines.len()
        invariant
            i <= lines.len(),
            lv == crate::text::strings_view(lines@),
            pred == (if exact {
                equal_to(needle@)
            } else {
                containing(needle@)
            }),
            index_view(r@) == positions_where(lv.subrange(0, i as int), pred),
        decreases lines.len() - i,
    {
        let ghost cur = lv.subrange(0, i + 1);
        assert(cur.drop_last() =~= lv.subrange(0, i as int));
        assert(cur.last() == lines@[i as int]@);
        let norm = chars_of(normalize(lines[i].as_str()).as_str());
        let hit = if exact {
            crate::text::chars_equal(&norm, needle)
        } else {
            contains_chars(&norm, needle)
        };
        if hit {
            let ghost old_r = r@;
            r.push(i);
            assert(index_view(r@) =~= index_view(old_r).push(i as int));
        }
        i = i + 1;
    }
    assert(lv.subrange(0, lv.len() as int) =~= lv);
    r
}

/// The positions of the OCR lines a value was read from (see
/// `matching_lines`).
pub fn find_matching_lines(value: &str, lines: &Vec<String>) -> (r: Vec<usize>)
    ensures
        index_view(r@) == matching_lines(value@, crate::text::strings_view(lines@)),
{
    if trim_chars(&chars_of(value)).len() == 0 {
        let r: Vec<usize> = Vec::new();
        assert(index_view(r@) =~= Seq::<int>::empty());
        return r;
    }
    let needle = chars_of(normalize(value).as_str());
    let exact = positions_matching(lines, &needle, true);
    if exact.len() > 0 {
        return exact;
    }
    positions_matching(lines, &needle, false)
}

// ── KB grounding ───────────────────────────────────────────────────────────

/// A passage the knowledge-base search returned; the relevance score is
/// carried as the bits of its `f64`.
#[derive(Debug)]
pub struct RetrievedPassage {
    pub title: Option<String>,
    pub source: Option<String>,
    pub content: String,
    pub score_bits: u64,
}

/// A conclusion as the model states it, with the indices of the passages
/// it says support it.
#[derive(Debug)]
pub struct RawConclusion {
    pub statement: String,
    pub citation_indices: Vec<usize>,
}

/// The material one conclusion rests on: the retrieved passage verbatim.
#[derive(Debug, PartialEq, Eq)]
pub struct KbCitation {
    pub title: Option<String>,
    pub source: Option<String>,
    pub passage_text: String,
    pub relevance_score_bits: u64,
}

#[derive(Debug)]
pub struct GroundedConclusion {
    pub statement: String,
    /// Empty when no retrieved passage supports the statement.
    pub citations: Vec<KbCitation>,
}

#[derive(Debug)]
pub struct KbScoringResult {
    pub conclusions: Vec<GroundedConclusion>,
    pub retrieved_count: usize,
    /// Retrieved passages no conclusion cited.
    pub uncited_count: usize,
}

pub struct CitationSpec {
    pub title: Option<Seq<char>>,
    pub source: Option<Seq<char>>,
    pub passage_text: Seq<char>,
    pub relevance_score_bits: u64,
}

impl View for KbCitation {
    type V = CitationSpec;

    open spec fn view(&self) -> CitationSpec {
        CitationSpec {
            title: opt_text(self.title),
            source: opt_text(self.source),
            passage_text: self.passage_text@,
            relevance_score_bits: self.relevance_score_bits,
        }
    }
}

pub open spec fn citation_of(p: RetrievedPassage) -> CitationSpec {
    CitationSpec {
        title: opt_text(p.title),
        source: opt_text(p.source),
        passage_text: p.content@,
        relevance_score_bits: p.score_bits,
    }
}

/// The passages a conclusion cites, in citation order; indices past the
/// retrieved passages cite nothing.
pub open spec fn cited_passages(indices: Seq<usize>, results: Seq<RetrievedPassage>) -> Seq<
    CitationSpec,
>
    decreases indices.len(),
{
    if indices.len() == 0 {
        seq![]
    } else {
        let prev = cited_passages(indices.drop_last(), results);
        if indices.last() < results.len() {
            prev.push(citation_of(results[indices.last() as int]))
        } else {
            prev
        }
    }
}

pub open spec fn citations_view(v: Seq<KbCitation>) -> Seq<CitationSpec> {
    v.map_values(|c: KbCitation| c@)
}

/// Every index any conclusion cites, retrieved or not.
pub open spec fn cited_index_set(raw: Seq<RawConclusion>) -> Set<usize>
    decreases raw.len(),
{
    if raw.len() == 0 {
        Set::empty()
    } else {
        cited_index_set(raw.drop_last()).union(raw.last().citation_indices@.to_set())
    }
}

/// Indices that name one of `n` retrieved passages.
pub open spec fn below(n: nat) -> spec_fn(usize) -> bool {
    |i: usize| (i as nat) < n
}

/// The retrieved passages (of `n`) that at least one conclusion cites.
pub open spec fn cited_retrieved(raw: Seq<RawConclusion>, n: nat) -> Set<usize> {
    cited_index_set(raw).filter(below(n))
}

fn clone_opt_string(o: &Option<String>) -> (r: Option<String>)
    ensures
        r == *o,
{
    match o {
        Some(s) => Some(s.clone()),
        None => None,
    }
}

proof fn lemma_cited_set_finite(raw: Seq<RawConclusion>)
    ensures
        cited_index_set(raw).finite(),
    decreases raw.len(),
{
    if raw.len() > 0 {
        lemma_cited_set_finite(raw.drop_last());
        vstd::seq_lib::seq_to_set_is_finite(raw.last().citation_indices@);
        vstd::set::axiom_set_union_finite(
            cited_index_set(raw.drop_last()),
            raw.last().citation_indices@.to_set(),
        );
    }
}

proof fn lemma_bounded_set_len(s: Set<usize>, n: nat)
    requires
        s.finite(),
        n <= usize::MAX + 1,
        forall|x: usize| s.contains(x) ==> (x as nat) < n,
    ensures
        s.len() <= n,
    decreases n,
{
    if n == 0 {
        assert(s =~= Set::<usize>::empty());
    } else {
        let top = (n - 1) as usize;
        let rest = s.remove(top);
        lemma_bounded_set_len(rest, (n - 1) as nat);
    }
}

/// The scoring when the search retrieved nothing: no conclusions, nothing
/// retrieved or left uncited, and no model call. `None` when passages were
/// retrieved and the model is to be asked.
pub fn kb_result_without_passages(results: &Vec<RetrievedPassage>) -> (r: Option<KbScoringResult>)
    ensures
        r is Some <==> results@.len() == 0,
        r matches Some(k) ==> k.conclusions@.len() == 0 && k.retrieved_count == 0
            && k.uncited_count == 0,
{
    if results.len() == 0 {
        Some(KbScoringResult { conclusions: Vec::new(), retrieved_count: 0, uncited_count: 0 })
    } else {
        None
    }
}

/// Attaches to each conclusion the full text of the retrieved passages it
/// cites (never the model's paraphrase) and counts the retrieved passages
/// no conclusion cited; a cited index past the retrieved passages names no
/// passage and leaves the count alone.
pub fn ground_conclusions(results: &Vec<RetrievedPassage>, raw: Vec<RawConclusion>) -> (r:
    KbScoringResult)
    ensures
        r.conclusions@.len() == raw@.len(),
        forall|i: int|
            0 <= i < raw@.len() ==> (#[trigger] r.conclusions@[i]).statement == raw@[i].statement
                && citations_view(r.conclusions@[i].citations@) == cited_passages(
                raw@[i].citation_indices@,
                results@,
            ),
        r.retrieved_count == results@.len(),
        r.uncited_count == results@.len() - cited_retrieved(raw@, results@.len()).len(),
{
    let ghost rv = raw@;
    let mut cited: HashSet<usize> = HashSet::new();
    let mut conclusions: Vec<GroundedConclusion> = Vec::new();
    let mut raw = raw;
    let mut i: usize = 0;
    let n = raw.len();
    proof {
        assert(rv.subrange(0, 0) =~= Seq::<RawConclusion>::empty());
        assert(cited@ =~= cited_retrieved(rv.subrange(0, 0), results@.len()));
    }
    assert(raw@ =~= rv.subrange(0, n as int));
    while i < n
        invariant
            n == rv.len(),
            i <= n,
            raw@ == rv.subrange(i as int, n as int),
            cited@ == cited_retrieved(rv.subrange(0, i as int), results@.len()),
            conclusions@.len() == i,
            forall|k: int|
                0 <= k < i ==> (#[trigger] conclusions@[k]).statement == rv[k].statement
                    && citations_view(conclusions@[k].citations@) == cited_passages(
                    rv[k].citation_indices@,
                    results@,
                ),
        decreases n - i,
    {
        let rc = raw.remove(0);
        assert(rc == rv[i as int]);
        assert(raw@ =~= rv.subrange(i + 1, n as int));
        let ghost idx = rc.citation_indices@;
        let mut citations: Vec<KbCitation> = Vec::new();
        let mut j: usize = 0;
        let ghost before_set = cited_index_set(rv.subrange(0, i as int));
        assert(idx.subrange(0, 0) =~= Seq::<usize>::empty());
        assert(citations_view(citations@) =~= Seq::<CitationSpec>::empty());
        while j < rc.citation_indices.len()
            invariant
                j <= rc.citation_indices.len(),
                idx == rc.citation_indices@,
                cited@ == before_set.union(idx.subrange(0, j as int).to_set()).filter(
                    below(results@.len()),
                ),
                citations_view(citations@) == cited_passages(idx.subrange(0, j as int), results@),
            decreases rc.citation_indices.len() - j,
        {
            let ghost cur = idx.subrange(0, j + 1);
            assert(cur.drop_last() =~= idx.subrange(0, j as int));
            let k = rc.citation_indices[j];
            assert(cur.to_set() =~= idx.subrange(0, j as int).to_set().insert(k)) by {
                assert(cur =~= idx.subrange(0, j as int).push(k));
                broadcast use vstd::seq_lib::group_seq_properties;
            }
            let ghost prev_all = before_set.union(idx.subrange(0, j as int).to_set());
            assert(before_set.union(cur.to_set()) =~= prev_all.insert(k));
            if k < results.len() {
                cited.insert(k);
                assert(prev_all.insert(k).filter(below(results@.len())) =~= prev_all.filter(
                    below(results@.len()),
                ).insert(k));
            } else {
                assert(prev_all.insert(k).filter(below(results@.len())) =~= prev_all.filter(
                    below(results@.len()),
                ));
            }
            if k < results.len() {
                let p = &results[k];
                let ghost old_c = citations@;
                citations.push(
                    KbCitation {
                        title: clone_opt_string(&p.title),
                        source: clone_opt_string(&p.source),
                        passage_text: p.content.clone(),
                        relevance_score_bits: p.score_bits,
                    },
                );
                assert(citations_view(citations@) =~= citations_view(old_c).push(
                    citation_of(results@[k as int]),
                ));
            }
            j = j + 1;
        }
        assert(idx.subrange(0, idx.len() as int) =~= idx);
        let ghost cur = rv.subrange(0, i + 1);
        assert(cur.drop_last() =~= rv.subrange(0, i as int));
        assert(cited@ =~= cited_retrieved(cur, results@.len()));
        conclusions.push(GroundedConclusion { statement: rc.statement, citations });
        i = i + 1;
    }
    assert(rv.subrange(0, n as int) =~= rv);
    let retrieved = results.len();
    proof {
        lemma_cited_set_finite(rv);
        lemma_bounded_set_len(cited@, retrieved as nat);
    }
    let uncited = retrieved - cited.len();
    KbScoringResult { conclusions, retrieved_count: retrieved, uncited_count: uncited }
}


// ── stage decisions ────────────────────────────────────────────────────────

/// What came of the OCR stage's calls.
#[derive(Debug)]
pub enum OcrOutcome {
    /// No Content Understanding client is configured.
    NotConfigured,
    /// The bearer token could not be had.
    TokenFailed(CuError),
    /// The analysis call failed.
    AnalysisFailed(CuError),
    /// The document was analyzed.
    Analyzed,
}

/// What came of the extraction call, where one was made.
#[derive(Debug)]
pub enum ExtractOutcome {
    /// No extraction was attempted.
    Skipped,
    /// The model returned the document's fields.
    Extracted,
    /// The extraction failed.
    Failed(StructuredExtractionError),
}

/// Why a stage ended as it did: a reason it was skipped, or an error.
#[derive(Debug, PartialEq, Eq)]
pub enum StageNote {
    Reason(String),
    Error(String),
}

pub enum NoteSpec {
    Reason(Seq<char>),
    Error(Seq<char>),
}

impl View for StageNote {
    type V = NoteSpec;

    open spec fn view(&self) -> NoteSpec {
        match *self {
            StageNote::Reason(m) => NoteSpec::Reason(m@),
            StageNote::Error(m) => NoteSpec::Error(m@),
        }
    }
}

/// One stage's name, final status and note.
#[derive(Debug)]
pub struct StageOutcome {
    pub name: String,
    pub status: String,
    pub note: Option<StageNote>,
}

pub struct StageSpec {
    pub name: Seq<char>,
    pub status: Seq<char>,
    pub note: Option<NoteSpec>,
}

impl View for StageOutcome {
    type V = StageSpec;

    open spec fn view(&self) -> StageSpec {
        StageSpec {
            name: self.name@,
            status: self.status@,
            note: match self.note {
                Some(n) => Some(n@),
                None => None,
            },
        }
    }
}

/// The stages of a run in order, and how the OCR text was obtained.
#[derive(Debug)]
pub struct PipelineDecision {
    pub stages: Vec<StageOutcome>,
    pub extraction_method: String,
}

pub open spec fn stages_view(v: Seq<StageOutcome>) -> Seq<StageSpec> {
    v.map_values(|s: StageOutcome| s@)
}

pub open spec fn ocr_stage_of(ocr: OcrOutcome) -> StageSpec {
    match ocr {
        OcrOutcome::NotConfigured => StageSpec {
            name: "ocr"@,
            status: "skipped"@,
            note: Some(NoteSpec::Reason("content understanding not configured"@)),
        },
        OcrOutcome::TokenFailed(e) => StageSpec {
            name: "ocr"@,
            status: "failed"@,
            note: Some(NoteSpec::Error(e.text())),
        },
        OcrOutcome::AnalysisFailed(e) => StageSpec {
            name: "ocr"@,
            status: "failed_fallback"@,
            note: Some(NoteSpec::Error(e.text())),
        },
        OcrOutcome::Analyzed => StageSpec { name: "ocr"@, status: "complete"@, note: None },
    }
}

/// How the text handed to extraction was obtained.
pub open spec fn extraction_method_of(ocr: OcrOutcome) -> Seq<char> {
    match ocr {
        OcrOutcome::NotConfigured => "none"@,
        OcrOutcome::TokenFailed(_) => "fallback_no_token"@,
        OcrOutcome::AnalysisFailed(_) => "fallback_cu_error"@,
        OcrOutcome::Analyzed => "content_understanding"@,
    }
}

/// An unknown schema key skips extraction whatever was attempted.
pub open spec fn extract_stage_of(key: Seq<char>, extract: ExtractOutcome) -> StageSpec {
    if schema_of_key(key) is None {
        StageSpec {
            name: "extract"@,
            status: "skipped"@,
            note: Some(NoteSpec::Reason("no schema for '"@ + key + "'"@)),
        }
    } else {
        match extract {
            ExtractOutcome::Skipped => StageSpec { name: "extract"@, status: "skipped"@, note: None },
            ExtractOutcome::Extracted => StageSpec {
                name: "extract"@,
                status: "complete"@,
                note: None,
            },
            ExtractOutcome::Failed(e) => StageSpec {
                name: "extract"@,
                status: "failed"@,
                note: Some(NoteSpec::Error(e.text())),
            },
        }
    }
}

/// Ingest, OCR, extract and evaluate, in that order.
pub open spec fn pipeline_stages(ocr: OcrOutcome, key: Seq<char>, extract: ExtractOutcome) -> Seq<
    StageSpec,
> {
    seq![
        StageSpec { name: "ingest"@, status: "complete"@, note: None },
        ocr_stage_of(ocr),
        extract_stage_of(key, extract),
        StageSpec { name: "evaluate"@, status: "complete"@, note: None },
    ]
}

/// Only a failed extraction against a known schema fails the run.
pub open spec fn pipeline_fails(key: Seq<char>, extract: ExtractOutcome) -> bool {
    schema_of_key(key) is Some && extract is Failed
}

fn stage(name: &str, status: &str, note: Option<StageNote>) -> (r: StageOutcome)
    ensures
        r.name@ == name@,
        r.status@ == status@,
        r.note == note,
{
    StageOutcome { name: String::from_str(name), status: String::from_str(status), note }
}

/// Decides each stage's status from what the OCR and extraction calls
/// returned: a missing client skips OCR, a failed token or analysis falls
/// back to extraction without OCR text, an unknown schema key skips
/// extraction, and only a failed extraction against a known schema fails
/// the run, with that extraction error.
pub fn pipeline_decision(ocr: &OcrOutcome, field_schema_key: &str, extract: ExtractOutcome) -> (r:
    Result<PipelineDecision, PipelineError>)
    ensures
        r is Err <==> pipeline_fails(field_schema_key@, extract),
        (r matches Err(err) ==> extract matches ExtractOutcome::Failed(e)
            && err == PipelineError::ExtractionFailed(e)),
        (r matches Ok(d) ==> stages_view(d.stages@) == pipeline_stages(
            *ocr,
            field_schema_key@,
            extract,
        ) && d.extraction_method@ == extraction_method_of(*ocr)),
{
    let ghost extract0 = extract;
    let (ocr_status, ocr_note, method) = match ocr {
        OcrOutcome::NotConfigured => (
            "skipped",
            Some(StageNote::Reason(String::from_str("content understanding not configured"))),
            "none",
        ),
        OcrOutcome::TokenFailed(e) => ("failed", Some(StageNote::Error(e.message())), "fallback_no_token"),
        OcrOutcome::AnalysisFailed(e) => (
            "failed_fallback",
            Some(StageNote::Error(e.message())),
            "fallback_cu_error",
        ),
        OcrOutcome::Analyzed => ("complete", None, "content_understanding"),
    };
    let (extract_status, extract_note) = match schema_for_key(field_schema_key) {
        None => {
            let mut reason = String::from_str("no schema for '");
            reason.append(field_schema_key);
            reason.append("'");
            ("skipped", Some(StageNote::Reason(reason)))
        },
        Some(_) => match extract {
            ExtractOutcome::Skipped => ("skipped", None),
            ExtractOutcome::Extracted => ("complete", None),
            ExtractOutcome::Failed(e) => {
                return Err(PipelineError::ExtractionFailed(e));
            },
        },
    };
    let mut stages: Vec<StageOutcome> = Vec::new();
    stages.push(stage("ingest", "complete", None));
    stages.push(stage("ocr", ocr_status, ocr_note));
    stages.push(stage("extract", extract_status, extract_note));
    stages.push(stage("evaluate", "complete", None));
    let ghost expected = pipeline_stages(*ocr, field_schema_key@, extract0);
    assert(stages_view(stages@) =~= expected);
    Ok(PipelineDecision { stages, extraction_method: String::from_str(method) })
}

} // verus!
