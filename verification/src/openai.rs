//! Requests to the Azure OpenAI responses API: which deployment answers,
//! where the request goes, and which text of the reply is the answer.

use vstd::prelude::*;
use crate::insurance::opt_text;
use crate::text::{chars_eq_str, chars_of, trim_chars, trim_seq, trim_trailing_slashes, without_trailing_slashes};

verus! {

/// The deployment a request names: the configured one when the requested
/// model is blank.
pub open spec fn deployment_for(model: Seq<char>, configured: Seq<char>) -> Seq<char> {
    if trim_seq(model).len() == 0 {
        configured
    } else {
        model
    }
}

pub fn deployment_name<'a>(model: &'a str, configured: &'a str) -> (r: &'a str)
    ensures
        r@ == deployment_for(model@, configured@),
{
    if trim_chars(&chars_of(model)).len() == 0 {
        configured
    } else {
        model
    }
}

/// The responses endpoint of a resource: its endpoint without trailing
/// slashes, then `/openai/v1/responses`.
pub fn responses_url(endpoint: &str) -> (r: String)
    ensures
        r@ == without_trailing_slashes(endpoint@) + "/openai/v1/responses"@,
{
    let mut s = trim_trailing_slashes(endpoint);
    s.append("/openai/v1/responses");
    s
}


/// One content part of an output item: its `type` and `text`, each `None`
/// where absent or not a string.
#[derive(Debug)]
pub struct OutputContent {
    pub kind: Option<String>,
    pub text: Option<String>,
}

/// One item of a response's `output`: its `type`, and its `content`
/// (`None` where absent or not an array).
#[derive(Debug)]
pub struct OutputItem {
    pub kind: Option<String>,
    pub content: Option<Vec<OutputContent>>,
}

pub open spec fn kind_is(kind: Option<String>, name: Seq<char>) -> bool {
    kind matches Some(k) && k@ == name
}

/// The first output item of type `message`.
pub open spec fn first_message(items: Seq<OutputItem>) -> Option<OutputItem>
    decreases items.len(),
{
    if items.len() == 0 {
        None
    } else if kind_is(items[0].kind, "message"@) {
        Some(items[0])
    } else {
        first_message(items.drop_first())
    }
}

/// The first content part of type `output_text`.
pub open spec fn first_output_text(parts: Seq<OutputContent>) -> Option<OutputContent>
    decreases parts.len(),
{
    if parts.len() == 0 {
        None
    } else if kind_is(parts[0].kind, "output_text"@) {
        Some(parts[0])
    } else {
        first_output_text(parts.drop_first())
    }
}

/// The answer in a response's output: the text of the first `output_text`
/// part of the first `message` item.
pub open spec fn answer_text(items: Seq<OutputItem>) -> Option<Seq<char>> {
    match first_message(items) {
        Some(m) => match m.content {
            Some(parts) => match first_output_text(parts@) {
                Some(c) => opt_text(c.text),
                None => None,
            },
            None => None,
        },
        None => None,
    }
}

fn kind_matches(kind: &Option<String>, name: &str) -> (b: bool)
    ensures
        b == kind_is(*kind, name@),
{
    match kind {
        Some(k) => chars_eq_str(&chars_of(k.as_str()), name),
        None => false,
    }
}

/// Finds the answer in a response's output items; `None` when the first
/// message item has no text part, or there is no message item.
pub fn response_output_text(items: &Vec<OutputItem>) -> (r: Option<String>)
    ensures
        opt_text(r) == answer_text(items@),
{
    let n = items.len();
    let mut i: usize = 0;
    assert(items@.subrange(0, n as int) =~= items@);
    while i < n
        invariant
            n == items@.len(),
            i <= n,
            first_message(items@.subrange(i as int, n as int)) == first_message(items@),
        decreases n - i,
    {
        let ghost rest = items@.subrange(i as int, n as int);
        assert(rest[0] == items@[i as int]);
        assert(rest.drop_first() =~= items@.subrange(i + 1, n as int));
        if kind_matches(&items[i].kind, "message") {
            return match &items[i].content {
                Some(parts) => {
                    let m = parts.len();
                    let mut j: usize = 0;
                    assert(parts@.subrange(0, m as int) =~= parts@);
                    assert(first_message(items@) == Some(items@[i as int]));
                    while j < m
                        invariant
                            m == parts@.len(),
                            j <= m,
                            answer_text(items@) == (match first_output_text(parts@) {
                                Some(c) => opt_text(c.text),
                                None => None,
                            }),
                            first_output_text(parts@.subrange(j as int, m as int))
                                == first_output_text(parts@),
                        decreases m - j,
                    {
                        let ghost tail = parts@.subrange(j as int, m as int);
                        assert(tail[0] == parts@[j as int]);
                        assert(tail.drop_first() =~= parts@.subrange(j + 1, m as int));
                        if kind_matches(&parts[j].kind, "output_text") {
                            assert(first_output_text(parts@) == Some(parts@[j as int]));
                            return match &parts[j].text {
                                Some(t) => Some(t.clone()),
                                None => None,
                            };
                        }
                        j = j + 1;
                    }
                    None
                },
                None => None,
            };
        }
        i = i + 1;
    }
    None
}


/// What a chat request sends: where, which deployment, and the output
/// token limit when one is given. No temperature is sent.
#[derive(Debug, PartialEq, Eq)]
pub struct ResponsesRequest {
    pub url: String,
    pub model: String,
    pub max_output_tokens: Option<u32>,
}

/// The request for `model` (the configured deployment when blank) to the
/// resource at `endpoint`.
pub fn responses_request(
    endpoint: &str,
    configured: &str,
    model: &str,
    max_tokens: Option<u32>,
) -> (r: ResponsesRequest)
    ensures
        r.url@ == without_trailing_slashes(endpoint@) + "/openai/v1/responses"@,
        r.model@ == deployment_for(model@, configured@),
        r.max_output_tokens == max_tokens,
{
    ResponsesRequest {
        url: responses_url(endpoint),
        model: String::from_str(deployment_name(model, configured)),
        max_output_tokens: max_tokens,
    }
}

/// How a successful HTTP reply reads: the service's own error, the answer
/// text, or no answer text at all.
#[derive(Debug, PartialEq, Eq)]
pub enum ReplyOutcome {
    ServiceError(String),
    Answer(String),
    NoOutputText,
}

/// Reads a reply: an `error` the service reported (its JSON text, `None`
/// when absent or null) wins; otherwise the answer is the text of the
/// first `output_text` part of the first `message` item.
pub fn read_reply(error_text: Option<String>, items: &Vec<OutputItem>) -> (r: ReplyOutcome)
    ensures
        (error_text matches Some(e) ==> r == ReplyOutcome::ServiceError(e)),
        error_text is None ==> (match answer_text(items@) {
            Some(t) => r matches ReplyOutcome::Answer(a) && a@ == t,
            None => r == ReplyOutcome::NoOutputText,
        }),
{
    match error_text {
        Some(e) => ReplyOutcome::ServiceError(e),
        None => match response_output_text(items) {
            Some(t) => ReplyOutcome::Answer(t),
            None => ReplyOutcome::NoOutputText,
        },
    }
}

} // verus!
