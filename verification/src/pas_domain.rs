//! Policy-administration domain: business numbers (`POL-YYYY-NNNNNN` and
//! friends), quote and policy lifecycles, and request validation.

use vstd::prelude::*;
use vstd::string::StringSliceAdditionalSpecFns;
use crate::ids::{CustomerId, PolicyId, QuoteId, UserId};
use crate::text::{chars_of, digit_char, digit_char_exec, is_ascii_digit, push_char, string_of, trim_chars, trim_seq};

verus! {

pub type BindId = PolicyId;

pub type EndorsementId = UserId;

// ── business numbers ────────────────────────────────────────────────────────

/// Whether `v` is `{prefix}-YYYY-NNNNNN`: the prefix, a dash, four ASCII
/// digits, a dash and six ASCII digits, nothing more.
pub open spec fn valid_business_number(prefix: Seq<char>, v: Seq<char>) -> bool {
    let p = prefix.len() as int;
    &&& v.len() == p + 12
    &&& v.subrange(0, p) == prefix
    &&& v[p] == '-'
    &&& forall|i: int| p + 1 <= i < p + 5 ==> is_ascii_digit(#[trigger] v[i])
    &&& v[p + 5] == '-'
    &&& forall|i: int| p + 6 <= i < p + 12 ==> is_ascii_digit(#[trigger] v[i])
}

/// The reason given when a number does not have the expected shape.
pub open spec fn number_format_reason(prefix: Seq<char>) -> Seq<char> {
    "must match "@ + prefix + "-YYYY-NNNNNN"@
}

/// FNV-1a (64-bit) over a byte sequence.
pub open spec fn fnv1a(bytes: Seq<u8>) -> u64
    decreases bytes.len(),
{
    if bytes.len() == 0 {
        0xcbf2_9ce4_8422_2325u64
    } else {
        (fnv1a(bytes.drop_last()) ^ (bytes.last() as u64)).wrapping_mul(0x0000_0100_0000_01b3u64)
    }
}

/// The six-digit sequence number derived from a seed's UTF-8 bytes.
pub open spec fn stable_number_spec(seed: Seq<char>) -> u64 {
    (fnv1a(vstd::utf8::encode_utf8(seed)) % 1_000_000) as u64
}

/// `n` written with exactly six digits, zero-padded (`n < 1_000_000`).
pub open spec fn six_digits(n: nat) -> Seq<char> {
    seq![
        digit_char(((n / 100000) % 10) as int),
        digit_char(((n / 10000) % 10) as int),
        digit_char(((n / 1000) % 10) as int),
        digit_char(((n / 100) % 10) as int),
        digit_char(((n / 10) % 10) as int),
        digit_char((n % 10) as int),
    ]
}

/// `{prefix}-2026-{six-digit stable number of seed}`.
pub open spec fn deterministic_number(prefix: Seq<char>, seed: Seq<char>) -> Seq<char> {
    prefix + "-2026-"@ + six_digits(stable_number_spec(seed) as nat)
}

fn stable_number(seed: &str) -> (n: u64)
    ensures
        n == stable_number_spec(seed@),
        n < 1_000_000,
{
    let bytes = seed.as_bytes();
    let mut hash: u64 = 0xcbf2_9ce4_8422_2325u64;
    let mut i: usize = 0;
    while i < bytes.len()
        invariant
            i <= bytes@.len(),
            bytes@ == seed.spec_bytes(),
            hash == fnv1a(bytes@.subrange(0, i as int)),
        decreases bytes.len() - i,
    {
        let ghost prefix = bytes@.subrange(0, i + 1);
        assert(prefix.drop_last() =~= bytes@.subrange(0, i as int));
        hash = hash ^ (bytes[i] as u64);
        hash = hash.wrapping_mul(0x0000_0100_0000_01b3u64);
        i = i + 1;
    }
    assert(bytes@.subrange(0, bytes@.len() as int) =~= bytes@);
    hash % 1_000_000
}

fn push_six_digits(s: &mut String, n: u64)
    requires
        n < 1_000_000,
    ensures
        final(s)@ == old(s)@ + six_digits(n as nat),
{
    let ghost before = s@;
    push_char(s, digit_char_exec((n / 100000) % 10));
    push_char(s, digit_char_exec((n / 10000) % 10));
    push_char(s, digit_char_exec((n / 1000) % 10));
    push_char(s, digit_char_exec((n / 100) % 10));
    push_char(s, digit_char_exec((n / 10) % 10));
    push_char(s, digit_char_exec(n % 10));
    assert(s@ =~= before + six_digits(n as nat));
}

fn format_business_number(prefix: &str, seed: &str) -> (s: String)
    ensures
        s@ == deterministic_number(prefix@, seed@),
{
    let mut s = String::from_str(prefix);
    s.append("-2026-");
    push_six_digits(&mut s, stable_number(seed));
    assert(s@ =~= deterministic_number(prefix@, seed@));
    s
}

fn number_error(prefix: &str) -> (e: PasValidationError)
    ensures
        e is InvalidField,
        e->InvalidField_field@ == "number"@,
        e->InvalidField_reason@ == number_format_reason(prefix@),
{
    let mut reason = String::from_str("must match ");
    reason.append(prefix);
    reason.append("-YYYY-NNNNNN");
    assert(reason@ =~= number_format_reason(prefix@));
    PasValidationError::InvalidField { field: "number", reason }
}

fn all_digits(v: &Vec<char>, from: usize, to: usize) -> (b: bool)
    requires
        from <= to <= v.len(),
    ensures
        b == forall|i: int| from <= i < to ==> is_ascii_digit(#[trigger] v@[i]),
{
    let mut i = from;
    while i < to
        invariant
            from <= i <= to,
            to <= v.len(),
            forall|j: int| from <= j < i ==> is_ascii_digit(#[trigger] v@[j]),
        decreases to - i,
    {
        if !('0' <= v[i] && v[i] <= '9') {
            return false;
        }
        i = i + 1;
    }
    true
}

fn validate_business_number(prefix: &str, value: &str) -> (r: Result<(), PasValidationError>)
    ensures
        r is Ok <==> valid_business_number(prefix@, value@),
        r matches Err(e) ==> e is InvalidField && e->InvalidField_field@ == "number"@
            && e->InvalidField_reason@ == number_format_reason(prefix@),
{
    let v = chars_of(value);
    let p = chars_of(prefix);
    let pl = p.len();
    assert(v@.len() == v.len() && p@.len() == pl);
    if pl > usize::MAX - 12 || v.len() != pl + 12 {
        assert(!valid_business_number(prefix@, value@));
        return Err(number_error(prefix));
    }
    let mut i: usize = 0;
    while i < pl
        invariant
            pl == p@.len(),
            v@.len() == pl + 12,
            p@ == prefix@,
            v@ == value@,
            i <= pl,
            forall|j: int| 0 <= j < i ==> v@[j] == p@[j],
        decreases pl - i,
    {
        if v[i] != p[i] {
            assert(!valid_business_number(prefix@, value@)) by {
                if valid_business_number(prefix@, value@) {
                    assert(value@.subrange(0, pl as int)[i as int] == prefix@[i as int]);
                    assert(value@ == v@);
                }
            }
            return Err(number_error(prefix));
        }
        i = i + 1;
    }
    assert(v@.subrange(0, pl as int) =~= prefix@);
    let ok = v[pl] == '-' && all_digits(&v, pl + 1, pl + 5) && v[pl + 5] == '-' && all_digits(
        &v,
        pl + 6,
        pl + 12,
    );
    if !ok {
        assert(!valid_business_number(prefix@, value@)) by {
            if valid_business_number(prefix@, value@) {
                assert(value@ == v@);
                assert(forall|i: int| pl + 1 <= i < pl + 5 ==> is_ascii_digit(#[trigger] v@[i]));
                assert(forall|i: int| pl + 6 <= i < pl + 12 ==> is_ascii_digit(#[trigger] v@[i]));
            }
        }
        return Err(number_error(prefix));
    }
    Ok(())
}

/// A policy number, `POL-YYYY-NNNNNN`.
#[derive(Debug, PartialEq, Eq, Hash)]
pub struct PolicyNumber(String);

/// A quote number, `QUO-YYYY-NNNNNN`.
#[derive(Debug, PartialEq, Eq, Hash)]
pub struct QuoteNumber(String);

/// A claim number, `CLM-YYYY-NNNNNN`.
#[derive(Debug, PartialEq, Eq, Hash)]
pub struct ClaimNumber(String);

/// An account number, `ACC-YYYY-NNNNNN`.
#[derive(Debug, PartialEq, Eq, Hash)]
pub struct AccountNumber(String);

impl View for PolicyNumber {
    type V = Seq<char>;

    closed spec fn view(&self) -> Seq<char> {
        self.0@
    }
}

impl View for QuoteNumber {
    type V = Seq<char>;

    closed spec fn view(&self) -> Seq<char> {
        self.0@
    }
}

impl View for ClaimNumber {
    type V = Seq<char>;

    closed spec fn view(&self) -> Seq<char> {
        self.0@
    }
}

impl View for AccountNumber {
    type V = Seq<char>;

    closed spec fn view(&self) -> Seq<char> {
        self.0@
    }
}

impl Clone for PolicyNumber {
    fn clone(&self) -> (r: Self)
        ensures
            r@ == self@,
    {
        PolicyNumber(self.0.clone())
    }
}

impl Clone for QuoteNumber {
    fn clone(&self) -> (r: Self)
        ensures
            r@ == self@,
    {
        QuoteNumber(self.0.clone())
    }
}

impl Clone for ClaimNumber {
    fn clone(&self) -> (r: Self)
        ensures
            r@ == self@,
    {
        ClaimNumber(self.0.clone())
    }
}

impl Clone for AccountNumber {
    fn clone(&self) -> (r: Self)
        ensures
            r@ == self@,
    {
        AccountNumber(self.0.clone())
    }
}

impl PolicyNumber {
    /// Accepts `value` when it is `POL-YYYY-NNNNNN`.
    pub fn new(value: &str) -> (r: Result<Self, PasValidationError>)
        ensures
            r is Ok <==> valid_business_number("POL"@, value@),
            r matches Ok(n) ==> n@ == value@,
            r matches Err(e) ==> e is InvalidField && e->InvalidField_field@ == "number"@
                && e->InvalidField_reason@ == number_format_reason("POL"@),
    {
        match validate_business_number("POL", value) {
            Ok(()) => Ok(PolicyNumber(String::from_str(value))),
            Err(e) => Err(e),
        }
    }

    /// The number derived from `seed`: `POL-2026-` and six digits that
    /// depend on the seed alone.
    pub fn deterministic(seed: &str) -> (n: Self)
        ensures
            n@ == deterministic_number("POL"@, seed@),
    {
        PolicyNumber(format_business_number("POL", seed))
    }

    pub fn as_str(&self) -> (s: &str)
        ensures
            s@ == self@,
    {
        self.0.as_str()
    }
}

impl QuoteNumber {
    /// Accepts `value` when it is `QUO-YYYY-NNNNNN`.
    pub fn new(value: &str) -> (r: Result<Self, PasValidationError>)
        ensures
            r is Ok <==> valid_business_number("QUO"@, value@),
            r matches Ok(n) ==> n@ == value@,
            r matches Err(e) ==> e is InvalidField && e->InvalidField_field@ == "number"@
                && e->InvalidField_reason@ == number_format_reason("QUO"@),
    {
        match validate_business_number("QUO", value) {
            Ok(()) => Ok(QuoteNumber(String::from_str(value))),
            Err(e) => Err(e),
        }
    }

    /// The number derived from `seed`: `QUO-2026-` and six digits that
    /// depend on the seed alone.
    pub fn deterministic(seed: &str) -> (n: Self)
        ensures
            n@ == deterministic_number("QUO"@, seed@),
    {
        QuoteNumber(format_business_number("QUO", seed))
    }

    pub fn as_str(&self) -> (s: &str)
        ensures
            s@ == self@,
    {
        self.0.as_str()
    }
}

impl ClaimNumber {
    /// Accepts `value` when it is `CLM-YYYY-NNNNNN`.
    pub fn new(value: &str) -> (r: Result<Self, PasValidationError>)
        ensures
            r is Ok <==> valid_business_number("CLM"@, value@),
            r matches Ok(n) ==> n@ == value@,
            r matches Err(e) ==> e is InvalidField && e->InvalidField_field@ == "number"@
                && e->InvalidField_reason@ == number_format_reason("CLM"@),
    {
        match validate_business_number("CLM", value) {
            Ok(()) => Ok(ClaimNumber(String::from_str(value))),
            Err(e) => Err(e),
        }
    }

    /// The number derived from `seed`: `CLM-2026-` and six digits that
    /// depend on the seed alone.
    pub fn deterministic(seed: &str) -> (n: Self)
        ensures
            n@ == deterministic_number("CLM"@, seed@),
    {
        ClaimNumber(format_business_number("CLM", seed))
    }

    pub fn as_str(&self) -> (s: &str)
        ensures
            s@ == self@,
    {
        self.0.as_str()
    }
}

impl AccountNumber {
    /// Accepts `value` when it is `ACC-YYYY-NNNNNN`.
    pub fn new(value: &str) -> (r: Result<Self, PasValidationError>)
        ensures
            r is Ok <==> valid_business_number("ACC"@, value@),
            r matches Ok(n) ==> n@ == value@,
            r matches Err(e) ==> e is InvalidField && e->InvalidField_field@ == "number"@
                && e->InvalidField_reason@ == number_format_reason("ACC"@),
    {
        match validate_business_number("ACC", value) {
            Ok(()) => Ok(AccountNumber(String::from_str(value))),
            Err(e) => Err(e),
        }
    }

    /// The number derived from `seed`: `ACC-2026-` and six digits that
    /// depend on the seed alone.
    pub fn deterministic(seed: &str) -> (n: Self)
        ensures
            n@ == deterministic_number("ACC"@, seed@),
    {
        AccountNumber(format_business_number("ACC", seed))
    }

    pub fn as_str(&self) -> (s: &str)
        ensures
            s@ == self@,
    {
        self.0.as_str()
    }
}

/// Whether every character of `s` is an ASCII digit.
pub open spec fn digits_only(s: Seq<char>) -> bool {
    forall|i: int| 0 <= i < s.len() ==> is_ascii_digit(#[trigger] s[i])
}

/// A business number is exactly its prefix, a dash, a four-digit year, a
/// dash and a six-digit sequence: every such text is accepted, and every
/// accepted text is one.
pub proof fn lemma_business_number_is_prefix_year_sequence(
    prefix: Seq<char>,
    year: Seq<char>,
    sequence: Seq<char>,
    v: Seq<char>,
)
    ensures
        (year.len() == 4 && digits_only(year) && sequence.len() == 6 && digits_only(sequence))
            ==> valid_business_number(prefix, prefix + "-"@ + year + "-"@ + sequence),
        valid_business_number(prefix, v) ==> ({
            let p = prefix.len() as int;
            let y = v.subrange(p + 1, p + 5);
            let n = v.subrange(p + 6, p + 12);
            &&& digits_only(y) && digits_only(n)
            &&& v == prefix + "-"@ + y + "-"@ + n
        }),
{
    reveal_strlit("-");
    let p = prefix.len() as int;
    if year.len() == 4 && digits_only(year) && sequence.len() == 6 && digits_only(sequence) {
        let w = prefix + "-"@ + year + "-"@ + sequence;
        assert(w.subrange(0, p) =~= prefix);
        assert forall|i: int| p + 1 <= i < p + 5 implies is_ascii_digit(#[trigger] w[i]) by {
            assert(w[i] == year[i - p - 1]);
        }
        assert forall|i: int| p + 6 <= i < p + 12 implies is_ascii_digit(#[trigger] w[i]) by {
            assert(w[i] == sequence[i - p - 6]);
        }
    }
    if valid_business_number(prefix, v) {
        let y = v.subrange(p + 1, p + 5);
        let n = v.subrange(p + 6, p + 12);
        assert forall|i: int| 0 <= i < y.len() implies is_ascii_digit(#[trigger] y[i]) by {
            assert(y[i] == v[p + 1 + i]);
        }
        assert forall|i: int| 0 <= i < n.len() implies is_ascii_digit(#[trigger] n[i]) by {
            assert(n[i] == v[p + 6 + i]);
        }
        assert(v =~= prefix + "-"@ + y + "-"@ + n) by {
            assert forall|i: int| 0 <= i < p implies v[i] == prefix[i] by {
                assert(v.subrange(0, p)[i] == v[i]);
            }
        }
    }
}

/// Every deterministic number is accepted by the validating constructor of
/// its kind: `{prefix}-2026-NNNNNN` always has the `{prefix}-YYYY-NNNNNN`
/// shape.
pub proof fn lemma_deterministic_numbers_are_valid(prefix: Seq<char>, seed: Seq<char>)
    ensures
        valid_business_number(prefix, deterministic_number(prefix, seed)),
{
    let v = deterministic_number(prefix, seed);
    let p = prefix.len() as int;
    let n = stable_number_spec(seed) as nat;
    reveal_strlit("-2026-");
    assert(v.subrange(0, p) =~= prefix);
    assert forall|i: int| p + 1 <= i < p + 5 implies is_ascii_digit(#[trigger] v[i]) by {
        assert(v[i] == "-2026-"@[i - p]);
    }
    assert forall|i: int| p + 6 <= i < p + 12 implies is_ascii_digit(#[trigger] v[i]) by {
        assert(v[i] == six_digits(n)[i - p - 6]);
    }
}

// ── lifecycle ──────────────────────────────────────────────────────────────

#[derive(Debug, Clone, Copy, PartialEq, Eq, Structural)]
pub enum LineOfBusiness {
    Homeowners,
    DwellingFire,
    Auto,
    CommercialProperty,
}

#[derive(Debug, Clone, Copy, PartialEq, Eq, Structural)]
pub enum CoverageStatus {
    Requested,
    Quoted,
    Bound,
    Issued,
    Suspended,
    Cancelled,
}

#[derive(Debug, Clone, Copy, PartialEq, Eq, Structural)]
pub enum EndorsementStatus {
    Draft,
    Quoted,
    Applied,
    Declined,
    Withdrawn,
}

#[derive(Debug, Clone, Copy, PartialEq, Eq, Structural)]
pub enum PaymentStatus {
    NotRequired,
    Pending,
    Authorized,
    Captured,
    Failed,
    Refunded,
}

#[derive(Debug, Clone, Copy, PartialEq, Eq, Structural)]
pub enum QuoteStatus {
    Draft,
    Rated,
    Offered,
    Bound,
    Expired,
    Declined,
}

#[derive(Debug, Clone, Copy, PartialEq, Eq, Structural)]
pub enum PolicyStatus {
    PendingIssue,
    Active,
    Endorsed,
    Cancelled,
    Expired,
    Reinstated,
}

/// The quote lifecycle: Draft → Rated → Offered → {Bound, Expired, Declined}.
pub open spec fn quote_transition(from: QuoteStatus, to: QuoteStatus) -> bool {
    ||| (from == QuoteStatus::Draft && to == QuoteStatus::Rated)
    ||| (from == QuoteStatus::Rated && to == QuoteStatus::Offered)
    ||| (from == QuoteStatus::Offered && to == QuoteStatus::Bound)
    ||| (from == QuoteStatus::Offered && to == QuoteStatus::Expired)
    ||| (from == QuoteStatus::Offered && to == QuoteStatus::Declined)
}

/// The policy lifecycle.
pub open spec fn policy_transition(from: PolicyStatus, to: PolicyStatus) -> bool {
    ||| (from == PolicyStatus::PendingIssue && to == PolicyStatus::Active)
    ||| (from == PolicyStatus::Active && to == PolicyStatus::Endorsed)
    ||| (from == PolicyStatus::Endorsed && to == PolicyStatus::Active)
    ||| (from == PolicyStatus::Active && to == PolicyStatus::Cancelled)
    ||| (from == PolicyStatus::Endorsed && to == PolicyStatus::Cancelled)
    ||| (from == PolicyStatus::Cancelled && to == PolicyStatus::Reinstated)
    ||| (from == PolicyStatus::Reinstated && to == PolicyStatus::Active)
    ||| (from == PolicyStatus::Active && to == PolicyStatus::Expired)
}

impl QuoteStatus {
    pub fn can_transition_to(&self, next: &Self) -> (b: bool)
        ensures
            b == quote_transition(*self, *next),
    {
        match (self, next) {
            (QuoteStatus::Draft, QuoteStatus::Rated) => true,
            (QuoteStatus::Rated, QuoteStatus::Offered) => true,
            (QuoteStatus::Offered, QuoteStatus::Bound) => true,
            (QuoteStatus::Offered, QuoteStatus::Expired) => true,
            (QuoteStatus::Offered, QuoteStatus::Declined) => true,
            _ => false,
        }
    }
}

impl PolicyStatus {
    pub fn can_transition_to(&self, next: &Self) -> (b: bool)
        ensures
            b == policy_transition(*self, *next),
    {
        match (self, next) {
            (PolicyStatus::PendingIssue, PolicyStatus::Active) => true,
            (PolicyStatus::Active, PolicyStatus::Endorsed) => true,
            (PolicyStatus::Endorsed, PolicyStatus::Active) => true,
            (PolicyStatus::Active, PolicyStatus::Cancelled) => true,
            (PolicyStatus::Endorsed, PolicyStatus::Cancelled) => true,
            (PolicyStatus::Cancelled, PolicyStatus::Reinstated) => true,
            (PolicyStatus::Reinstated, PolicyStatus::Active) => true,
            (PolicyStatus::Active, PolicyStatus::Expired) => true,
            _ => false,
        }
    }
}

/// Where each policy status can go: a pending policy only to Active
/// (issuance); an Active one to Endorsed, Cancelled or Expired; an
/// Endorsed one back to Active or to Cancelled; a Cancelled one only to
/// Reinstated; a Reinstated one only back to Active; an Expired one
/// nowhere. In particular every in-force policy, Active or Endorsed, can
/// be cancelled.
pub proof fn lemma_policy_moves(t: PolicyStatus)
    ensures
        policy_transition(PolicyStatus::Active, PolicyStatus::Cancelled),
        policy_transition(PolicyStatus::Endorsed, PolicyStatus::Cancelled),
        policy_transition(PolicyStatus::PendingIssue, t) <==> t == PolicyStatus::Active,
        policy_transition(PolicyStatus::Active, t) <==> (t == PolicyStatus::Endorsed || t
            == PolicyStatus::Cancelled || t == PolicyStatus::Expired),
        policy_transition(PolicyStatus::Endorsed, t) <==> (t == PolicyStatus::Active || t
            == PolicyStatus::Cancelled),
        policy_transition(PolicyStatus::Cancelled, t) <==> t == PolicyStatus::Reinstated,
        policy_transition(PolicyStatus::Reinstated, t) <==> t == PolicyStatus::Active,
        !policy_transition(PolicyStatus::Expired, t),
{
}

/// Where each quote status can go: a draft is rated, a rated quote is
/// offered, an offered quote is bound, expires or is declined; a bound,
/// expired or declined quote goes nowhere.
pub proof fn lemma_quote_moves(t: QuoteStatus)
    ensures
        quote_transition(QuoteStatus::Draft, t) <==> t == QuoteStatus::Rated,
        quote_transition(QuoteStatus::Rated, t) <==> t == QuoteStatus::Offered,
        quote_transition(QuoteStatus::Offered, t) <==> (t == QuoteStatus::Bound || t
            == QuoteStatus::Expired || t == QuoteStatus::Declined),
        !quote_transition(QuoteStatus::Bound, t),
        !quote_transition(QuoteStatus::Expired, t),
        !quote_transition(QuoteStatus::Declined, t),
{
}

/// Bound, Expired and Declined quotes are final: no transition leaves them,
/// and nothing returns a quote to Draft.
pub proof fn lemma_quote_terminal_states(s: QuoteStatus, t: QuoteStatus)
    ensures
        (s == QuoteStatus::Bound || s == QuoteStatus::Expired || s == QuoteStatus::Declined)
            ==> !quote_transition(s, t),
        !quote_transition(s, QuoteStatus::Draft),
        !quote_transition(s, s),
{
}

/// An expired policy never changes status again, nothing returns a policy
/// to PendingIssue, no status transitions to itself, and only a cancelled
/// policy can be reinstated.
pub proof fn lemma_policy_lifecycle_rules(s: PolicyStatus, t: PolicyStatus)
    ensures
        !policy_transition(PolicyStatus::Expired, t),
        !policy_transition(s, PolicyStatus::PendingIssue),
        !policy_transition(s, s),
        policy_transition(s, PolicyStatus::Reinstated) ==> s == PolicyStatus::Cancelled,
{
}

// ── request and response bodies ────────────────────────────────────────────

#[derive(Debug, PartialEq, Eq)]
pub enum PasValidationError {
    MissingField { field: &'static str },
    InvalidField { field: &'static str, reason: String },
    InvalidTransition { from: String, to: String },
}

#[derive(Debug, PartialEq, Eq)]
pub struct PasErrorBody {
    pub code: String,
    pub message: String,
    pub request_id: Option<UserId>,
}

#[derive(Debug, PartialEq)]
pub struct PasResponse<T> {
    pub request_id: UserId,
    pub source: String,
    pub data: T,
}

impl<T> PasResponse<T> {
    /// A response produced by this service: source `rust-pas`.
    pub fn rust_native(request_id: UserId, data: T) -> (r: Self)
        ensures
            r.request_id == request_id,
            r.source@ == "rust-pas"@,
            r.data == data,
    {
        PasResponse { request_id, source: String::from_str("rust-pas"), data }
    }
}

#[derive(Debug, PartialEq, Eq)]
pub struct CoverageSelection {
    pub code: String,
    pub limit: u64,
    pub deductible: u64,
    pub status: CoverageStatus,
}

#[derive(Debug, PartialEq, Eq)]
pub struct CustomerRef {
    pub customer_id: CustomerId,
    pub account_number: AccountNumber,
}

/// A calendar date, as days since 1970-01-01.
pub type DateDays = i64;

/// An instant, as microseconds since 1970-01-01T00:00:00Z.
pub type InstantMicros = i64;

#[derive(Debug, PartialEq, Eq)]
pub struct QuoteInput {
    pub customer: CustomerRef,
    pub line_of_business: LineOfBusiness,
    pub state: String,
    pub effective_date: DateDays,
    pub coverages: Vec<CoverageSelection>,
}

#[derive(Debug, PartialEq, Eq)]
pub struct BindInput {
    pub quote_id: QuoteId,
    pub account_number: AccountNumber,
    pub payment_status: PaymentStatus,
}

#[derive(Debug, PartialEq)]
pub struct QuoteResponse {
    pub quote_id: QuoteId,
    pub quote_number: QuoteNumber,
    pub customer_id: CustomerId,
    pub account_number: AccountNumber,
    pub status: QuoteStatus,
    pub line_of_business: LineOfBusiness,
    pub annual_premium_cents: u64,
    pub currency: String,
    pub coverages: Vec<CoverageSelection>,
    pub created_at: InstantMicros,
}

#[derive(Debug, PartialEq)]
pub struct BindResponse {
    pub quote_id: QuoteId,
    pub quote_number: QuoteNumber,
    pub policy_id: PolicyId,
    pub policy_number: PolicyNumber,
    pub account_number: AccountNumber,
    pub quote_status: QuoteStatus,
    pub policy_status: PolicyStatus,
    pub payment_status: PaymentStatus,
    pub annual_premium_cents: u64,
    pub currency: String,
    pub bound_at: InstantMicros,
}

#[derive(Debug, PartialEq)]
pub struct PolicyResponse {
    pub policy_id: PolicyId,
    pub policy_number: PolicyNumber,
    pub account_id: AccountNumber,
    pub status: PolicyStatus,
    pub effective_date: DateDays,
    pub coverages: Vec<CoverageSelection>,
}

#[derive(Debug, PartialEq, Eq)]
pub struct EndorsementInput {
    pub coverages: Vec<CoverageSelection>,
}

#[derive(Debug, PartialEq)]
pub struct EndorsementResponse {
    pub endorsement_id: EndorsementId,
    pub policy_id: PolicyId,
    pub status: EndorsementStatus,
    pub applied_at: InstantMicros,
}

/// Whether some selected coverage has a zero limit.
pub open spec fn has_zero_limit(coverages: Seq<CoverageSelection>) -> bool {
    exists|i: int| 0 <= i < coverages.len() && #[trigger] coverages[i].limit == 0
}

fn any_zero_limit(coverages: &Vec<CoverageSelection>) -> (b: bool)
    ensures
        b == has_zero_limit(coverages@),
{
    let mut i: usize = 0;
    while i < coverages.len()
        invariant
            i <= coverages.len(),
            forall|j: int| 0 <= j < i ==> #[trigger] coverages@[j].limit != 0,
        decreases coverages.len() - i,
    {
        if coverages[i].limit == 0 {
            return true;
        }
        i = i + 1;
    }
    false
}

fn missing_coverages() -> (e: PasValidationError)
    ensures
        e is MissingField && e->MissingField_field@ == "coverages"@,
{
    PasValidationError::MissingField { field: "coverages" }
}

fn zero_limit_error() -> (e: PasValidationError)
    ensures
        e is InvalidField && e->InvalidField_field@ == "coverages.limit"@
            && e->InvalidField_reason@ == "must be greater than zero"@,
{
    PasValidationError::InvalidField {
        field: "coverages.limit",
        reason: String::from_str("must be greater than zero"),
    }
}

impl QuoteInput {
    /// The trimmed state must be two bytes long, and there must be at least
    /// one coverage, each with a non-zero limit; checked in that order.
    pub fn validate(&self) -> (r: Result<(), PasValidationError>)
        ensures
            ({
                let state_ok = vstd::utf8::encode_utf8(trim_seq(self.state@)).len() == 2;
                match r {
                    Ok(()) => state_ok && self.coverages@.len() > 0 && !has_zero_limit(
                        self.coverages@,
                    ),
                    Err(e) => if !state_ok {
                        e is InvalidField && e->InvalidField_field@ == "state"@
                            && e->InvalidField_reason@
                            == "must be a two-character US state code"@
                    } else if self.coverages@.len() == 0 {
                        e is MissingField && e->MissingField_field@ == "coverages"@
                    } else {
                        has_zero_limit(self.coverages@) && e is InvalidField
                            && e->InvalidField_field@ == "coverages.limit"@
                            && e->InvalidField_reason@ == "must be greater than zero"@
                    },
                }
            }),
    {
        let trimmed = string_of(&trim_chars(&chars_of(self.state.as_str())));
        if trimmed.as_str().as_bytes().len() != 2 {
            return Err(
                PasValidationError::InvalidField {
                    field: "state",
                    reason: String::from_str("must be a two-character US state code"),
                },
            );
        }
        if self.coverages.len() == 0 {
            return Err(missing_coverages());
        }
        if any_zero_limit(&self.coverages) {
            return Err(zero_limit_error());
        }
        Ok(())
    }
}

impl BindInput {
    /// A quote cannot be bound with a failed or refunded payment.
    pub fn validate(&self) -> (r: Result<(), PasValidationError>)
        ensures
            r is Ok <==> !(self.payment_status == PaymentStatus::Failed || self.payment_status
                == PaymentStatus::Refunded),
            r matches Err(e) ==> e is InvalidField && e->InvalidField_field@ == "payment_status"@
                && e->InvalidField_reason@ == "cannot bind with failed or refunded payment"@,
    {
        match self.payment_status {
            PaymentStatus::Failed | PaymentStatus::Refunded => Err(
                PasValidationError::InvalidField {
                    field: "payment_status",
                    reason: String::from_str("cannot bind with failed or refunded payment"),
                },
            ),
            _ => Ok(()),
        }
    }
}

impl EndorsementInput {
    /// At least one coverage, each with a non-zero limit.
    pub fn validate(&self) -> (r: Result<(), PasValidationError>)
        ensures
            r is Ok <==> self.coverages@.len() > 0 && !has_zero_limit(self.coverages@),
            r matches Err(e) ==> if self.coverages@.len() == 0 {
                e is MissingField && e->MissingField_field@ == "coverages"@
            } else {
                e is InvalidField && e->InvalidField_field@ == "coverages.limit"@
                    && e->InvalidField_reason@ == "must be greater than zero"@
            },
    {
        if self.coverages.len() == 0 {
            return Err(missing_coverages());
        }
        if any_zero_limit(&self.coverages) {
            return Err(zero_limit_error());
        }
        Ok(())
    }
}

} // verus!
