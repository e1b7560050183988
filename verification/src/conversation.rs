//! Conversation memory: facts picked out of a chat turn, and the context
//! block of known facts given to the assistant. Instants are microseconds
//! since the Unix epoch; identifiers are UUIDs held as their 128-bit values.

use vstd::prelude::*;
use crate::text::{chars_of, is_whitespace, string_of, strings_view, trim_chars, trim_seq};

verus! {

#[derive(Debug, PartialEq, Eq)]
pub struct ExtractedFact {
    pub fact_type: String,
    pub fact_key: String,
    pub fact_value: String,
}

pub struct FactSpec {
    pub fact_type: Seq<char>,
    pub fact_key: Seq<char>,
    pub fact_value: Seq<char>,
}

impl View for ExtractedFact {
    type V = FactSpec;

    open spec fn view(&self) -> FactSpec {
        FactSpec {
            fact_type: self.fact_type@,
            fact_key: self.fact_key@,
            fact_value: self.fact_value@,
        }
    }
}

pub open spec fn facts_view(v: Seq<ExtractedFact>) -> Seq<FactSpec> {
    v.map_values(|f: ExtractedFact| f@)
}

#[derive(Debug, PartialEq, Eq)]
pub enum MemoryError {
    DatabaseError(String),
    SessionNotFound,
    FactConflict(String),
}

#[derive(Debug, PartialEq, Eq)]
pub struct ConversationSession {
    pub session_id: u128,
    pub user_id: u128,
    pub surface: String,
    pub workflow_id: Option<String>,
    pub created_at: i64,
    pub last_active_at: i64,
    /// JSON text.
    pub metadata_json: String,
}

#[derive(Debug, PartialEq, Eq)]
pub struct ConversationMessage {
    pub message_id: u128,
    pub session_id: u128,
    pub role: String,
    pub content: String,
    pub surface: String,
    pub created_at: i64,
}

#[derive(Debug, PartialEq, Eq)]
pub struct MemoryFact {
    pub fact_id: u128,
    pub user_id: u128,
    pub session_id: Option<u128>,
    pub fact_type: String,
    pub fact_key: String,
    pub fact_value: String,
    pub confidence: String,
    pub source_surface: String,
    pub created_at: i64,
    pub updated_at: i64,
}

#[derive(Debug)]
pub struct ConversationContext {
    pub session_id: u128,
    pub messages: Vec<ConversationMessage>,
    pub facts: Vec<MemoryFact>,
    pub system_prompt_injection: String,
}

/// `s` without trailing whitespace.
pub open spec fn trim_end_seq(s: Seq<char>) -> Seq<char>
    decreases s.len(),
{
    if s.len() > 0 && is_whitespace(s.last()) {
        trim_end_seq(s.drop_last())
    } else {
        s
    }
}

/// One `- {type}: {value}` line per fact, newline-terminated.
pub open spec fn fact_lines(facts: Seq<MemoryFact>) -> Seq<char>
    decreases facts.len(),
{
    if facts.len() == 0 {
        seq![]
    } else {
        fact_lines(facts.drop_last()) + "- "@ + facts.last().fact_type@ + ": "@
            + facts.last().fact_value@ + seq!['\n']
    }
}

/// The context block: nothing without facts, else a heading and one line
/// per fact, without trailing whitespace.
pub open spec fn injection_text(facts: Seq<MemoryFact>) -> Seq<char> {
    if facts.len() == 0 {
        seq![]
    } else {
        trim_end_seq("Known context for this user:\n"@ + fact_lines(facts))
    }
}

fn trim_end_chars(v: &Vec<char>) -> (r: Vec<char>)
    ensures
        r@ == trim_end_seq(v@),
{
    let mut end: usize = v.len();
    assert(v@.subrange(0, end as int) =~= v@);
    while end > 0 && crate::text::char_is_whitespace(v[end - 1])
        invariant
            end <= v.len(),
            trim_end_seq(v@.subrange(0, end as int)) == trim_end_seq(v@),
        decreases end,
    {
        let ghost sub = v@.subrange(0, end as int);
        assert(sub.drop_last() =~= v@.subrange(0, end - 1));
        end = end - 1;
    }
    let mut r: Vec<char> = Vec::new();
    let mut i: usize = 0;
    while i < end
        invariant
            i <= end,
            end <= v.len(),
            r@ == v@.subrange(0, i as int),
        decreases end - i,
    {
        r.push(v[i]);
        i = i + 1;
        assert(r@ =~= v@.subrange(0, i as int));
    }
    r
}

impl ConversationContext {
    /// The block of known facts given to the assistant.
    pub fn to_system_injection(&self) -> (r: String)
        ensures
            r@ == injection_text(self.facts@),
    {
        if self.facts.len() == 0 {
            let r = String::new();
            return r;
        }
        let mut out = String::from_str("Known context for this user:\n");
        let ghost head = out@;
        let mut i: usize = 0;
        while i < self.facts.len()
            invariant
                i <= self.facts.len(),
                out@ == head + fact_lines(self.facts@.subrange(0, i as int)),
            decreases self.facts.len() - i,
        {
            let ghost cur = self.facts@.subrange(0, i + 1);
            assert(cur.drop_last() =~= self.facts@.subrange(0, i as int));
            let fact = &self.facts[i];
            proof {
                reveal_strlit("\n");
            }
            let ghost before = out@;
            out.append("- ");
            out.append(fact.fact_type.as_str());
            out.append(": ");
            out.append(fact.fact_value.as_str());
            out.append("\n");
            assert(out@ =~= before + "- "@ + fact.fact_type@ + ": "@ + fact.fact_value@ + seq!['\n']);
            i = i + 1;
        }
        assert(self.facts@.subrange(0, self.facts@.len() as int) =~= self.facts@);
        let trimmed = trim_end_chars(&chars_of(out.as_str()));
        string_of(&trimmed)
    }
}

// ── fact extraction ────────────────────────────────────────────────────────

/// `facts` with the fact added unless an equal one is already there.
pub open spec fn with_fact(facts: Seq<FactSpec>, t: Seq<char>, k: Seq<char>, v: Seq<char>) -> Seq<
    FactSpec,
> {
    if exists|i: int|
        0 <= i < facts.len() && (#[trigger] facts[i]).fact_type == t && facts[i].fact_key == k
            && facts[i].fact_value == v {
        facts
    } else {
        facts.push(FactSpec { fact_type: t, fact_key: k, fact_value: v })
    }
}

/// Adds a fact unless an identical one (type, key and value) is present.
pub fn push_unique(facts: &mut Vec<ExtractedFact>, fact_type: &str, fact_key: &str, fact_value: &str)
    ensures
        facts_view(final(facts)@) == with_fact(
            facts_view(old(facts)@),
            fact_type@,
            fact_key@,
            fact_value@,
        ),
{
    let ghost fv = facts_view(facts@);
    let t = chars_of(fact_type);
    let k = chars_of(fact_key);
    let v = chars_of(fact_value);
    let mut i: usize = 0;
    while i < facts.len()
        invariant
            i <= facts.len(),
            fv == facts_view(facts@),
            t@ == fact_type@,
            k@ == fact_key@,
            v@ == fact_value@,
            forall|j: int|
                0 <= j < i ==> !((#[trigger] fv[j]).fact_type == fact_type@ && fv[j].fact_key
                    == fact_key@ && fv[j].fact_value == fact_value@),
        decreases facts.len() - i,
    {
        let f = &facts[i];
        if crate::text::chars_equal(&chars_of(f.fact_type.as_str()), &t) && crate::text::chars_equal(
            &chars_of(f.fact_key.as_str()),
            &k,
        ) && crate::text::chars_equal(&chars_of(f.fact_value.as_str()), &v) {
            assert(fv[i as int] == facts@[i as int]@);
            return;
        }
        assert(fv[i as int] == facts@[i as int]@);
        i = i + 1;
    }
    facts.push(
        ExtractedFact {
            fact_type: String::from_str(fact_type),
            fact_key: String::from_str(fact_key),
            fact_value: String::from_str(fact_value),
        },
    );
    assert(facts_view(facts@) =~= fv.push(
        FactSpec { fact_type: fact_type@, fact_key: fact_key@, fact_value: fact_value@ },
    ));
}

/// What `regex::Regex::find_iter` yields for `pattern` over `text`: the
/// matched texts in order; `None` when the pattern does not compile.
pub uninterp spec fn regex_matches(pattern: Seq<char>, text: Seq<char>) -> Option<Seq<Seq<char>>>;

/// What `regex::Regex::captures_iter` yields for `pattern` over `text`:
/// for each match, the text of capture group `group` if it took part;
/// `None` when the pattern does not compile.
pub uninterp spec fn regex_group_captures(pattern: Seq<char>, text: Seq<char>, group: usize) -> Option<
    Seq<Option<Seq<char>>>,
>;

/// `regex::Regex::new(pattern)` and its `find_iter` over `text`, as
/// matched texts. Trusted: the result is `regex_matches`.
#[verifier::external_body]
fn find_all(pattern: &str, text: &str) -> (r: Option<Vec<String>>)
    ensures
        (match r {
            Some(v) => regex_matches(pattern@, text@) == Some(strings_view(v@)),
            None => regex_matches(pattern@, text@) is None,
        }),
{
    let re = match regex::Regex::new(pattern) {
        Ok(re) => re,
        Err(_) => return None,
    };
    let mut out = Vec::new();
    for m in re.find_iter(text) {
        out.push(m.as_str().to_string());
    }
    Some(out)
}

pub open spec fn opt_strings_view(v: Seq<Option<String>>) -> Seq<Option<Seq<char>>> {
    v.map_values(|o: Option<String>| crate::insurance::opt_text(o))
}

/// `regex::Regex::new(pattern)` and its `captures_iter` over `text`, as the
/// texts of capture group `group`. Trusted: the result is
/// `regex_group_captures`.
#[verifier::external_body]
fn capture_group(pattern: &str, text: &str, group: usize) -> (r: Option<Vec<Option<String>>>)
    ensures
        (match r {
            Some(v) => regex_group_captures(pattern@, text@, group) == Some(opt_strings_view(v@)),
            None => regex_group_captures(pattern@, text@, group) is None,
        }),
{
    let re = match regex::Regex::new(pattern) {
        Ok(re) => re,
        Err(_) => return None,
    };
    let mut out = Vec::new();
    for cap in re.captures_iter(text) {
        out.push(cap.get(group).map(|m| m.as_str().to_string()));
    }
    Some(out)
}

/// Each matched text added as a fact of type `t` (key and value both the
/// text), in order, skipping duplicates.
pub open spec fn with_matches(facts: Seq<FactSpec>, t: Seq<char>, ms: Seq<Seq<char>>) -> Seq<FactSpec>
    decreases ms.len(),
{
    if ms.len() == 0 {
        facts
    } else {
        let prev = with_matches(facts, t, ms.drop_last());
        with_fact(prev, t, ms.last(), ms.last())
    }
}

/// `s` without trailing full stops.
pub open spec fn trim_end_dots(s: Seq<char>) -> Seq<char>
    decreases s.len(),
{
    if s.len() > 0 && s.last() == '.' {
        trim_end_dots(s.drop_last())
    } else {
        s
    }
}

/// Each captured name, trimmed and without trailing full stops, added as a
/// `user_name` fact unless empty or already present.
pub open spec fn with_names(facts: Seq<FactSpec>, names: Seq<Option<Seq<char>>>) -> Seq<FactSpec>
    decreases names.len(),
{
    if names.len() == 0 {
        facts
    } else {
        let prev = with_names(facts, names.drop_last());
        match names.last() {
            Some(n) => {
                let v = trim_end_dots(trim_seq(n));
                if v.len() > 0 {
                    with_fact(prev, "user_name"@, "user_name"@, v)
                } else {
                    prev
                }
            },
            None => prev,
        }
    }
}

pub open spec fn policy_number_pattern() -> Seq<char> {
    "\\b[A-Z]{2,4}-\\d{4,}\\b"@
}

pub open spec fn matches_or_none(o: Option<Seq<Seq<char>>>) -> Seq<Seq<char>> {
    match o {
        Some(m) => m,
        None => seq![],
    }
}

pub open spec fn captures_or_none(o: Option<Seq<Option<Seq<char>>>>) -> Seq<Option<Seq<char>>> {
    match o {
        Some(m) => m,
        None => seq![],
    }
}

fn add_matches(facts: &mut Vec<ExtractedFact>, text: &str, pattern: &str, fact_type: &str)
    ensures
        facts_view(final(facts)@) == with_matches(
            facts_view(old(facts)@),
            fact_type@,
            matches_or_none(regex_matches(pattern@, text@)),
        ),
{
    let ghost start = facts_view(facts@);
    match find_all(pattern, text) {
        None => {},
        Some(ms) => {
            let ghost mv = strings_view(ms@);
            let mut i: usize = 0;
            while i < ms.len()
                invariant
                    i <= ms.len(),
                    mv == strings_view(ms@),
                    facts_view(facts@) == with_matches(start, fact_type@, mv.subrange(0, i as int)),
                decreases ms.len() - i,
            {
                let ghost cur = mv.subrange(0, i + 1);
                assert(cur.drop_last() =~= mv.subrange(0, i as int));
                assert(cur.last() == ms@[i as int]@);
                push_unique(facts, fact_type, ms[i].as_str(), ms[i].as_str());
                i = i + 1;
            }
            assert(mv.subrange(0, mv.len() as int) =~= mv);
        },
    }
}

fn trim_end_dots_chars(v: &Vec<char>) -> (r: Vec<char>)
    ensures
        r@ == trim_end_dots(v@),
{
    let mut end: usize = v.len();
    assert(v@.subrange(0, end as int) =~= v@);
    while end > 0 && v[end - 1] == '.'
        invariant
            end <= v.len(),
            trim_end_dots(v@.subrange(0, end as int)) == trim_end_dots(v@),
        decreases end,
    {
        let ghost sub = v@.subrange(0, end as int);
        assert(sub.drop_last() =~= v@.subrange(0, end - 1));
        end = end - 1;
    }
    let mut r: Vec<char> = Vec::new();
    let mut i: usize = 0;
    while i < end
        invariant
            i <= end,
            end <= v.len(),
            r@ == v@.subrange(0, i as int),
        decreases end - i,
    {
        r.push(v[i]);
        i = i + 1;
        assert(r@ =~= v@.subrange(0, i as int));
    }
    r
}

/// The text a turn is searched in: the user's message, a newline, the
/// assistant's answer.
pub open spec fn turn_text(user_message: Seq<char>, assistant_response: Seq<char>) -> Seq<char> {
    user_message + seq!['\n'] + assistant_response
}

/// The facts a chat turn mentions, in this order and without duplicates:
/// policy numbers, claim ids, ISO dates and dollar amounts (each as it
/// appears), then the names the user gives ("my name is ...", "I am ...").
/// A pattern that does not compile contributes nothing.
pub open spec fn turn_facts(user_message: Seq<char>, assistant_response: Seq<char>) -> Seq<FactSpec> {
    let text = turn_text(user_message, assistant_response);
    let f1 = with_matches(seq![], "policy_number"@, matches_or_none(regex_matches(policy_number_pattern(), text)));
    let f2 = with_matches(f1, "claim_id"@, matches_or_none(regex_matches("\\bCLM-[A-Z0-9]+\\b"@, text)));
    let f3 = with_matches(
        f2,
        "date_mentioned"@,
        matches_or_none(regex_matches("\\b\\d{4}-\\d{2}-\\d{2}\\b"@, text)),
    );
    let f4 = with_matches(f3, "amount"@, matches_or_none(regex_matches("\\$[\\d,]+\\b"@, text)));
    with_names(f4, captures_or_none(regex_group_captures(name_pattern(), text, 1)))
}

pub open spec fn name_pattern() -> Seq<char> {
    "(?i)\\b(?:my name is|i am)\\s+([A-Z][A-Za-z'\\-]*(?:\\s+[A-Z][A-Za-z'\\-]*){0,3})"@
}

/// The facts a chat turn mentions (see `turn_facts`).
pub fn extract_facts_from_turn(user_message: &str, assistant_response: &str) -> (r: Vec<
    ExtractedFact,
>)
    ensures
        facts_view(r@) == turn_facts(user_message@, assistant_response@),
{
    let mut text = String::from_str(user_message);
    text.append("\n");
    text.append(assistant_response);
    proof {
        reveal_strlit("\n");
    }
    assert(text@ =~= turn_text(user_message@, assistant_response@));
    let mut facts: Vec<ExtractedFact> = Vec::new();
    assert(facts_view(facts@) =~= Seq::<FactSpec>::empty());
    add_matches(&mut facts, text.as_str(), "\\b[A-Z]{2,4}-\\d{4,}\\b", "policy_number");
    add_matches(&mut facts, text.as_str(), "\\bCLM-[A-Z0-9]+\\b", "claim_id");
    add_matches(&mut facts, text.as_str(), "\\b\\d{4}-\\d{2}-\\d{2}\\b", "date_mentioned");
    add_matches(&mut facts, text.as_str(), "\\$[\\d,]+\\b", "amount");
    let ghost before_names = facts_view(facts@);
    match capture_group(
        "(?i)\\b(?:my name is|i am)\\s+([A-Z][A-Za-z'\\-]*(?:\\s+[A-Z][A-Za-z'\\-]*){0,3})",
        text.as_str(),
        1,
    ) {
        None => {},
        Some(names) => {
            let ghost nv = opt_strings_view(names@);
            let mut i: usize = 0;
            while i < names.len()
                invariant
                    i <= names.len(),
                    nv == opt_strings_view(names@),
                    facts_view(facts@) == with_names(before_names, nv.subrange(0, i as int)),
                decreases names.len() - i,
            {
                let ghost cur = nv.subrange(0, i + 1);
                assert(cur.drop_last() =~= nv.subrange(0, i as int));
                assert(cur.last() == crate::insurance::opt_text(names@[i as int]));
                match &names[i] {
                    Some(n) => {
                        let trimmed = trim_chars(&chars_of(n.as_str()));
                        let value = trim_end_dots_chars(&trimmed);
                        if value.len() > 0 {
                            let s = string_of(&value);
                            push_unique(&mut facts, "user_name", "user_name", s.as_str());
                        }
                    },
                    None => {},
                }
                i = i + 1;
            }
            assert(nv.subrange(0, nv.len() as int) =~= nv);
        },
    }
    facts
}

/// No fact occurs twice (same type, key and value).
pub open spec fn facts_distinct(fs: Seq<FactSpec>) -> bool {
    forall|i: int, j: int|
        0 <= i < j < fs.len() ==> !((#[trigger] fs[i]).fact_type == (#[trigger] fs[j]).fact_type
            && fs[i].fact_key == fs[j].fact_key && fs[i].fact_value == fs[j].fact_value)
}

proof fn lemma_with_fact_distinct(fs: Seq<FactSpec>, t: Seq<char>, k: Seq<char>, v: Seq<char>)
    requires
        facts_distinct(fs),
    ensures
        facts_distinct(with_fact(fs, t, k, v)),
{
    let r = with_fact(fs, t, k, v);
    assert forall|i: int, j: int| 0 <= i < j < r.len() implies !((#[trigger] r[i]).fact_type == (
    #[trigger] r[j]).fact_type && r[i].fact_key == r[j].fact_key && r[i].fact_value
        == r[j].fact_value) by {
        if j < fs.len() {
            assert(r[i] == fs[i] && r[j] == fs[j]);
        } else {
            assert(r[i] == fs[i]);
        }
    }
}

proof fn lemma_with_matches_distinct(fs: Seq<FactSpec>, t: Seq<char>, ms: Seq<Seq<char>>)
    requires
        facts_distinct(fs),
    ensures
        facts_distinct(with_matches(fs, t, ms)),
    decreases ms.len(),
{
    if ms.len() > 0 {
        lemma_with_matches_distinct(fs, t, ms.drop_last());
        lemma_with_fact_distinct(with_matches(fs, t, ms.drop_last()), t, ms.last(), ms.last());
    }
}

proof fn lemma_with_names_distinct(fs: Seq<FactSpec>, names: Seq<Option<Seq<char>>>)
    requires
        facts_distinct(fs),
    ensures
        facts_distinct(with_names(fs, names)),
    decreases names.len(),
{
    if names.len() > 0 {
        lemma_with_names_distinct(fs, names.drop_last());
        if let Some(n) = names.last() {
            let v = trim_end_dots(trim_seq(n));
            lemma_with_fact_distinct(with_names(fs, names.drop_last()), "user_name"@, "user_name"@, v);
        }
    }
}

/// A turn never yields the same fact twice, however often the turn
/// mentions it.
pub proof fn lemma_turn_facts_are_distinct(user_message: Seq<char>, assistant_response: Seq<char>)
    ensures
        facts_distinct(turn_facts(user_message, assistant_response)),
{
    let text = turn_text(user_message, assistant_response);
    let f0 = Seq::<FactSpec>::empty();
    let m1 = matches_or_none(regex_matches(policy_number_pattern(), text));
    let m2 = matches_or_none(regex_matches("\\bCLM-[A-Z0-9]+\\b"@, text));
    let m3 = matches_or_none(regex_matches("\\b\\d{4}-\\d{2}-\\d{2}\\b"@, text));
    let m4 = matches_or_none(regex_matches("\\$[\\d,]+\\b"@, text));
    lemma_with_matches_distinct(f0, "policy_number"@, m1);
    let f1 = with_matches(f0, "policy_number"@, m1);
    lemma_with_matches_distinct(f1, "claim_id"@, m2);
    let f2 = with_matches(f1, "claim_id"@, m2);
    lemma_with_matches_distinct(f2, "date_mentioned"@, m3);
    let f3 = with_matches(f2, "date_mentioned"@, m3);
    lemma_with_matches_distinct(f3, "amount"@, m4);
    let f4 = with_matches(f3, "amount"@, m4);
    lemma_with_names_distinct(f4, captures_or_none(regex_group_captures(name_pattern(), text, 1)));
}

} // verus!
