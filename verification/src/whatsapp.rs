//! WhatsApp Cloud API messaging: destination normalization and the checks
//! made before a message is sent. The destination goes out in
//! international format, digits only, no leading `+` and no `00` prefix.

use vstd::prelude::*;
use crate::text::{chars_of, is_ascii_digit, string_of, take_chars, take_seq};

verus! {

#[derive(Debug)]
pub enum WhatsAppError {
    NotConfigured,
    /// The destination as given.
    InvalidPhone(String),
    /// The transport failure, as text.
    Request(String),
    /// A non-success answer: the status and the first 200 characters of
    /// the body.
    Api { status: u16, body: String },
}

#[derive(Debug)]
pub struct WhatsAppConfig {
    pub access_token: String,
    pub phone_id: String,
}

impl WhatsAppConfig {
    /// Both the access token and the phone-number id are set.
    pub fn is_configured(&self) -> (r: bool)
        ensures
            r == (self.access_token@.len() > 0 && self.phone_id@.len() > 0),
    {
        self.access_token.unicode_len() > 0 && self.phone_id.unicode_len() > 0
    }
}

/// The ASCII digits of `s`, in order.
pub open spec fn ascii_digits(s: Seq<char>) -> Seq<char>
    decreases s.len(),
{
    if s.len() == 0 {
        seq![]
    } else if is_ascii_digit(s.last()) {
        ascii_digits(s.drop_last()).push(s.last())
    } else {
        ascii_digits(s.drop_last())
    }
}

/// The digits of `phone` without a leading `00`; `None` when no digit is
/// left.
pub open spec fn normalized_phone(phone: Seq<char>) -> Option<Seq<char>> {
    let d = ascii_digits(phone);
    let rest = if d.len() >= 2 && d[0] == '0' && d[1] == '0' {
        d.subrange(2, d.len() as int)
    } else {
        d
    };
    if rest.len() == 0 {
        None
    } else {
        Some(rest)
    }
}

/// Keeps the digits of `phone`, drops a leading `00`, and gives `None`
/// when nothing is left.
pub fn normalize_phone(phone: &str) -> (r: Option<String>)
    ensures
        (match r {
            Some(s) => normalized_phone(phone@) == Some(s@),
            None => normalized_phone(phone@) is None,
        }),
{
    let v = chars_of(phone);
    let mut digits: Vec<char> = Vec::new();
    let mut i: usize = 0;
    while i < v.len()
        invariant
            i <= v.len(),
            v@ == phone@,
            digits@ == ascii_digits(v@.subrange(0, i as int)),
        decreases v.len() - i,
    {
        let ghost cur = v@.subrange(0, i + 1);
        assert(cur.drop_last() =~= v@.subrange(0, i as int));
        let c = v[i];
        if '0' <= c && c <= '9' {
            digits.push(c);
        }
        i = i + 1;
    }
    assert(v@.subrange(0, v@.len() as int) =~= v@);
    let mut start: usize = 0;
    if digits.len() >= 2 && digits[0] == '0' && digits[1] == '0' {
        start = 2;
    }
    let mut rest: Vec<char> = Vec::new();
    let mut j: usize = start;
    while j < digits.len()
        invariant
            start <= j <= digits.len(),
            rest@ == digits@.subrange(start as int, j as int),
        decreases digits.len() - j,
    {
        rest.push(digits[j]);
        j = j + 1;
        assert(rest@ =~= digits@.subrange(start as int, j as int));
    }
    assert(start == 0 ==> digits@.subrange(0, digits@.len() as int) =~= digits@);
    if rest.len() == 0 {
        None
    } else {
        Some(string_of(&rest))
    }
}

/// The Cloud API endpoint that sends messages from `phone_id`.
pub open spec fn messages_url_text(phone_id: Seq<char>) -> Seq<char> {
    "https://graph.facebook.com/v18.0/"@ + phone_id + "/messages"@
}

pub fn messages_url(phone_id: &str) -> (r: String)
    ensures
        r@ == messages_url_text(phone_id@),
{
    let mut s = String::from_str("https://graph.facebook.com/v18.0/");
    s.append(phone_id);
    s.append("/messages");
    s
}

/// A message can go out when the client is configured and the
/// destination normalizes; the result is the endpoint and the destination.
pub fn prepare_send(config: &WhatsAppConfig, phone: &str) -> (r: Result<(String, String), WhatsAppError>)
    ensures
        !(config.access_token@.len() > 0 && config.phone_id@.len() > 0) ==> r matches Err(
            WhatsAppError::NotConfigured,
        ),
        (config.access_token@.len() > 0 && config.phone_id@.len() > 0 && normalized_phone(phone@) is None)
            ==> (r matches Err(WhatsAppError::InvalidPhone(p)) && p@ == phone@),
        r matches Ok((url, to)) ==> config.access_token@.len() > 0 && config.phone_id@.len() > 0
            && url@ == messages_url_text(config.phone_id@) && normalized_phone(phone@) == Some(to@),
        (config.access_token@.len() > 0 && config.phone_id@.len() > 0 && normalized_phone(phone@) is Some)
            ==> r is Ok,
{
    if !config.is_configured() {
        return Err(WhatsAppError::NotConfigured);
    }
    match normalize_phone(phone) {
        None => Err(WhatsAppError::InvalidPhone(String::from_str(phone))),
        Some(to) => Ok((messages_url(config.phone_id.as_str()), to)),
    }
}

/// The error for a non-success answer: the status, and the body cut to
/// its first 200 characters.
pub fn api_failure(status: u16, body: &str) -> (r: WhatsAppError)
    ensures
        r matches WhatsAppError::Api { status: s, body: b } && s == status && b@ == take_seq(
            body@,
            200,
        ),
{
    WhatsAppError::Api { status, body: take_chars(body, 200) }
}

proof fn lemma_ascii_digits_are_digits(s: Seq<char>)
    ensures
        forall|i: int| 0 <= i < ascii_digits(s).len() ==> is_ascii_digit(#[trigger] ascii_digits(s)[i]),
    decreases s.len(),
{
    if s.len() > 0 {
        let prev = ascii_digits(s.drop_last());
        lemma_ascii_digits_are_digits(s.drop_last());
        if is_ascii_digit(s.last()) {
            assert forall|i: int| 0 <= i < ascii_digits(s).len() implies is_ascii_digit(
                #[trigger] ascii_digits(s)[i],
            ) by {
                if i < prev.len() {
                    assert(ascii_digits(s)[i] == prev[i]);
                }
            }
        }
    }
}

/// A normalized destination is what the Cloud API expects: a non-empty
/// run of ASCII digits, so never a leading `+`.
pub proof fn lemma_normalized_phone_is_digits(phone: Seq<char>)
    ensures
        normalized_phone(phone) matches Some(d) ==> (d.len() > 0 && forall|i: int|
            0 <= i < d.len() ==> is_ascii_digit(#[trigger] d[i])),
{
    lemma_ascii_digits_are_digits(phone);
    let d = ascii_digits(phone);
    if d.len() >= 2 && d[0] == '0' && d[1] == '0' {
        let rest = d.subrange(2, d.len() as int);
        assert forall|i: int| 0 <= i < rest.len() implies is_ascii_digit(#[trigger] rest[i]) by {
            assert(rest[i] == d[i + 2]);
        }
    }
}

} // verus!
