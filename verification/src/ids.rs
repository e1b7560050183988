//! Workspace identifiers. Each is a UUID held as its 128-bit value.

use vstd::prelude::*;
use crate::text::{push_char, string_of};

verus! {

/// Whether a UUID is a random one (RFC 4122 version 4): its version
/// nibble is 4 and its variant bits are `10`.
pub open spec fn is_v4_uuid(u: u128) -> bool {
    (u >> 76u128) & 0xFu128 == 4 && (u >> 62u128) & 0x3u128 == 2
}

/// `uuid::Uuid::new_v4`, as its 128-bit value. Trusted: every outcome is a
/// version-4 UUID (the crate sets the version and variant bits over random
/// ones); the remaining 122 bits are random and nothing is stated of them.
#[verifier::external_body]
pub(crate) fn random_uuid() -> (r: u128)
    ensures
        is_v4_uuid(r),
{
    uuid::Uuid::new_v4().as_u128()
}

/// The UUID `uuid::Uuid::parse_str` reads from `text`, as its 128-bit
/// value; `None` when the text is not a UUID it accepts.
pub uninterp spec fn uuid_parsed(text: Seq<char>) -> Option<u128>;

/// `uuid::Uuid::parse_str`, giving the 128-bit value. Trusted: the result
/// is `uuid_parsed` of the text.
#[verifier::external_body]
pub(crate) fn parse_uuid(text: &str) -> (r: Option<u128>)
    ensures
        r == uuid_parsed(text@),
{
    match uuid::Uuid::parse_str(text) {
        Ok(u) => Some(u.as_u128()),
        Err(_) => None,
    }
}

/// Lowercase hexadecimal digit of `d` (0 to 15).
pub open spec fn hex_char(d: int) -> char {
    if d < 10 {
        ((48 + d) as u32) as char
    } else {
        ((87 + d) as u32) as char
    }
}

/// The `n` lowest hexadecimal digits of `u`, most significant first.
pub open spec fn hex_digits(u: nat, n: nat) -> Seq<char>
    decreases n,
{
    if n == 0 {
        seq![]
    } else {
        hex_digits(u / 16, (n - 1) as nat).push(hex_char((u % 16) as int))
    }
}

/// The hyphenated form of a UUID: its 32 lowercase hex digits in groups
/// of 8, 4, 4, 4 and 12 (how `uuid::Uuid` displays).
pub open spec fn uuid_text(u: u128) -> Seq<char> {
    let h = hex_digits(u as nat, 32);
    h.subrange(0, 8) + seq!['-'] + h.subrange(8, 12) + seq!['-'] + h.subrange(12, 16) + seq!['-']
        + h.subrange(16, 20) + seq!['-'] + h.subrange(20, 32)
}

fn hex_char_exec(d: u128) -> (c: char)
    requires
        d < 16,
    ensures
        c == hex_char(d as int),
{
    if d < 10 {
        ((48 + d) as u8) as char
    } else {
        ((87 + d) as u8) as char
    }
}

fn hex_digits_exec(u: u128, n: usize) -> (r: Vec<char>)
    ensures
        r@ == hex_digits(u as nat, n as nat),
    decreases n,
{
    if n == 0 {
        Vec::new()
    } else {
        let mut v = hex_digits_exec(u / 16, n - 1);
        v.push(hex_char_exec(u % 16));
        v
    }
}

proof fn lemma_hex_digits_len(u: nat, n: nat)
    ensures
        hex_digits(u, n).len() == n,
    decreases n,
{
    if n > 0 {
        lemma_hex_digits_len(u / 16, (n - 1) as nat);
    }
}

fn push_range(out: &mut Vec<char>, h: &Vec<char>, from: usize, to: usize)
    requires
        from <= to <= h.len(),
    ensures
        final(out)@ == old(out)@ + h@.subrange(from as int, to as int),
{
    let ghost start = out@;
    let mut i: usize = from;
    while i < to
        invariant
            from <= i <= to,
            to <= h.len(),
            out@ == start + h@.subrange(from as int, i as int),
        decreases to - i,
    {
        out.push(h[i]);
        i = i + 1;
        assert(out@ =~= start + h@.subrange(from as int, i as int));
    }
}

/// Renders a UUID in its hyphenated form.
pub fn uuid_string(u: u128) -> (r: String)
    ensures
        r@ == uuid_text(u),
{
    let h = hex_digits_exec(u, 32);
    proof {
        lemma_hex_digits_len(u as nat, 32);
    }
    let mut out: Vec<char> = Vec::new();
    push_range(&mut out, &h, 0, 8);
    out.push('-');
    push_range(&mut out, &h, 8, 12);
    out.push('-');
    push_range(&mut out, &h, 12, 16);
    out.push('-');
    push_range(&mut out, &h, 16, 20);
    out.push('-');
    push_range(&mut out, &h, 20, 32);
    assert(out@ =~= uuid_text(u));
    string_of(&out)
}

#[derive(Debug, Clone, Copy, PartialEq, Eq, Hash, Structural)]
pub struct UserId(pub u128);

#[derive(Debug, Clone, Copy, PartialEq, Eq, Hash, Structural)]
pub struct CustomerId(pub u128);

#[derive(Debug, Clone, Copy, PartialEq, Eq, Hash, Structural)]
pub struct PolicyId(pub u128);

#[derive(Debug, Clone, Copy, PartialEq, Eq, Hash, Structural)]
pub struct QuoteId(pub u128);

#[derive(Debug, Clone, Copy, PartialEq, Eq, Hash, Structural)]
pub struct AgentId(pub u128);

#[derive(Debug, Clone, Copy, PartialEq, Eq, Hash, Structural)]
pub struct ProductId(pub u128);

impl UserId {
    /// A fresh random identifier: a version-4 UUID.
    pub fn new() -> (r: Self)
        ensures
            is_v4_uuid(r.0),
    {
        UserId(random_uuid())
    }
}

impl CustomerId {
    /// A fresh random identifier: a version-4 UUID.
    pub fn new() -> (r: Self)
        ensures
            is_v4_uuid(r.0),
    {
        CustomerId(random_uuid())
    }
}

impl PolicyId {
    /// A fresh random identifier: a version-4 UUID.
    pub fn new() -> (r: Self)
        ensures
            is_v4_uuid(r.0),
    {
        PolicyId(random_uuid())
    }

    /// The identifier written as `text` (any form `uuid` accepts).
    pub fn parse(text: &str) -> (r: Option<PolicyId>)
        ensures
            (match r {
                Some(p) => uuid_parsed(text@) == Some(p.0),
                None => uuid_parsed(text@) is None,
            }),
    {
        match parse_uuid(text) {
            Some(u) => Some(PolicyId(u)),
            None => None,
        }
    }
}

impl QuoteId {
    /// A fresh random identifier: a version-4 UUID.
    pub fn new() -> (r: Self)
        ensures
            is_v4_uuid(r.0),
    {
        QuoteId(random_uuid())
    }
}

impl AgentId {
    /// A fresh random identifier: a version-4 UUID.
    pub fn new() -> (r: Self)
        ensures
            is_v4_uuid(r.0),
    {
        AgentId(random_uuid())
    }
}

impl ProductId {
    /// A fresh random identifier: a version-4 UUID.
    pub fn new() -> (r: Self)
        ensures
            is_v4_uuid(r.0),
    {
        ProductId(random_uuid())
    }
}

} // verus!
