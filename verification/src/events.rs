//! Insurance lifecycle events, their streams, routing, an in-memory event
//! store and bus, and the policy-timeline projection built from them.
//!
//! Instants are microseconds since the Unix epoch; identifiers are UUIDs
//! held as their 128-bit values; premiums are in cents.

use std::collections::HashMap;
use vstd::prelude::*;
use crate::ids::{uuid_string, uuid_text};
use crate::text::string_of;

verus! {

broadcast use vstd::std_specs::hash::group_hash_axioms;

// ── events ─────────────────────────────────────────────────────────────────

#[derive(Debug, PartialEq, Eq)]
pub struct QuoteCreated {
    pub event_id: u128,
    pub occurred_at: i64,
    pub quote_id: u128,
    pub customer_id: u128,
    pub product_id: u128,
    pub premium_cents: i64,
    pub currency: String,
}

#[derive(Debug, Clone, Copy, PartialEq, Eq)]
pub struct PolicyBound {
    pub event_id: u128,
    pub occurred_at: i64,
    pub quote_id: u128,
    pub customer_id: u128,
    pub product_id: u128,
}

#[derive(Debug, PartialEq, Eq)]
pub struct PolicyIssued {
    pub event_id: u128,
    pub occurred_at: i64,
    pub policy_id: u128,
    pub quote_id: u128,
    pub customer_id: u128,
    pub product_id: u128,
    pub premium_cents: i64,
    pub currency: String,
}

#[derive(Debug, PartialEq, Eq)]
pub enum InsuranceEvent {
    QuoteCreated(QuoteCreated),
    PolicyBound(PolicyBound),
    PolicyIssued(PolicyIssued),
}

impl Clone for QuoteCreated {
    fn clone(&self) -> (r: Self)
        ensures
            r == *self,
    {
        QuoteCreated {
            event_id: self.event_id,
            occurred_at: self.occurred_at,
            quote_id: self.quote_id,
            customer_id: self.customer_id,
            product_id: self.product_id,
            premium_cents: self.premium_cents,
            currency: self.currency.clone(),
        }
    }
}

impl Clone for PolicyIssued {
    fn clone(&self) -> (r: Self)
        ensures
            r == *self,
    {
        PolicyIssued {
            event_id: self.event_id,
            occurred_at: self.occurred_at,
            policy_id: self.policy_id,
            quote_id: self.quote_id,
            customer_id: self.customer_id,
            product_id: self.product_id,
            premium_cents: self.premium_cents,
            currency: self.currency.clone(),
        }
    }
}

impl Clone for InsuranceEvent {
    fn clone(&self) -> (r: Self)
        ensures
            r == *self,
    {
        match self {
            InsuranceEvent::QuoteCreated(e) => InsuranceEvent::QuoteCreated(e.clone()),
            InsuranceEvent::PolicyBound(e) => InsuranceEvent::PolicyBound(*e),
            InsuranceEvent::PolicyIssued(e) => InsuranceEvent::PolicyIssued(e.clone()),
        }
    }
}

/// The stream an event belongs to: quote events go to `quote-{quote id}`,
/// issuance to `policy-{policy id}`.
pub open spec fn stream_of(e: InsuranceEvent) -> Seq<char> {
    match e {
        InsuranceEvent::QuoteCreated(q) => "quote-"@ + uuid_text(q.quote_id),
        InsuranceEvent::PolicyBound(b) => "quote-"@ + uuid_text(b.quote_id),
        InsuranceEvent::PolicyIssued(i) => "policy-"@ + uuid_text(i.policy_id),
    }
}

pub open spec fn event_occurred_at(e: InsuranceEvent) -> i64 {
    match e {
        InsuranceEvent::QuoteCreated(q) => q.occurred_at,
        InsuranceEvent::PolicyBound(b) => b.occurred_at,
        InsuranceEvent::PolicyIssued(i) => i.occurred_at,
    }
}

impl InsuranceEvent {
    pub fn stream_name(&self) -> (r: String)
        ensures
            r@ == stream_of(*self),
    {
        let (prefix, id) = match self {
            InsuranceEvent::QuoteCreated(e) => ("quote-", e.quote_id),
            InsuranceEvent::PolicyBound(e) => ("quote-", e.quote_id),
            InsuranceEvent::PolicyIssued(e) => ("policy-", e.policy_id),
        };
        let mut s = String::from_str(prefix);
        let tail = uuid_string(id);
        s.append(tail.as_str());
        s
    }

    /// The event's type name as stored alongside its payload.
    pub fn event_type(&self) -> (r: &'static str)
        ensures
            r@ == (match *self {
                InsuranceEvent::QuoteCreated(_) => "QuoteCreated"@,
                InsuranceEvent::PolicyBound(_) => "PolicyBound"@,
                InsuranceEvent::PolicyIssued(_) => "PolicyIssued"@,
            }),
    {
        match self {
            InsuranceEvent::QuoteCreated(_) => "QuoteCreated",
            InsuranceEvent::PolicyBound(_) => "PolicyBound",
            InsuranceEvent::PolicyIssued(_) => "PolicyIssued",
        }
    }

    pub fn occurred_at(&self) -> (r: i64)
        ensures
            r == event_occurred_at(*self),
    {
        match self {
            InsuranceEvent::QuoteCreated(e) => e.occurred_at,
            InsuranceEvent::PolicyBound(e) => e.occurred_at,
            InsuranceEvent::PolicyIssued(e) => e.occurred_at,
        }
    }
}

// ── routing ────────────────────────────────────────────────────────────────

#[derive(Debug, Clone, Copy, PartialEq, Eq, Structural)]
pub enum RouteTarget {
    EventStore,
}

/// Decides where an event goes.
pub trait EventRoutePolicy {
    fn route(&self, event: &InsuranceEvent) -> Vec<RouteTarget>;
}

/// Every retained lifecycle event is durably written to the event store.
pub struct DefaultRoutePolicy;

impl EventRoutePolicy for DefaultRoutePolicy {
    fn route(&self, event: &InsuranceEvent) -> (r: Vec<RouteTarget>)
        ensures
            r@ == seq![RouteTarget::EventStore],
    {
        let mut v: Vec<RouteTarget> = Vec::new();
        v.push(RouteTarget::EventStore);
        v
    }
}

/// Whether a routing decision sends the event to the event store.
pub fn routes_to_event_store(targets: &Vec<RouteTarget>) -> (r: bool)
    ensures
        r == targets@.contains(RouteTarget::EventStore),
{
    let mut i: usize = 0;
    while i < targets.len()
        invariant
            i <= targets.len(),
            forall|k: int| 0 <= k < i ==> targets@[k] != RouteTarget::EventStore,
        decreases targets.len() - i,
    {
        if targets[i] == RouteTarget::EventStore {
            assert(targets@[i as int] == RouteTarget::EventStore);
            return true;
        }
        i = i + 1;
    }
    false
}

// ── in-memory store and bus ────────────────────────────────────────────────

/// Streams held in memory, in the order each was first written to.
///
/// The streams are kept as a list of (name, events) pairs with no name
/// twice, rather than a `HashMap` keyed by the name: vstd specifies what a
/// `HashMap` holds only for key types that satisfy `obeys_key_model`, which
/// it establishes for the integer types and not for `String`, so a map keyed
/// by stream name would leave every lookup and append unproved. With the
/// list each is proved against `stream_events`.
#[derive(Debug)]
pub struct InMemoryEventStore {
    streams: Vec<(String, Vec<InsuranceEvent>)>,
}

/// The streams' names and events, in first-write order.
pub open spec fn stream_views(v: Seq<(String, Vec<InsuranceEvent>)>) -> Seq<(Seq<char>, Seq<InsuranceEvent>)> {
    v.map_values(|p: (String, Vec<InsuranceEvent>)| (p.0@, p.1@))
}

/// No stream name occurs twice.
pub open spec fn names_distinct(s: Seq<(Seq<char>, Seq<InsuranceEvent>)>) -> bool {
    forall|i: int, j: int| 0 <= i < j < s.len() ==> #[trigger] s[i].0 != #[trigger] s[j].0
}

/// The events of the stream named `name` (none if there is no such
/// stream).
pub open spec fn stream_events(s: Seq<(Seq<char>, Seq<InsuranceEvent>)>, name: Seq<char>) -> Seq<
    InsuranceEvent,
>
    decreases s.len(),
{
    if s.len() == 0 {
        seq![]
    } else if s.last().0 == name {
        s.last().1
    } else {
        stream_events(s.drop_last(), name)
    }
}

/// Every stream's events, stream after stream.
pub open spec fn all_events(s: Seq<(Seq<char>, Seq<InsuranceEvent>)>) -> Seq<InsuranceEvent>
    decreases s.len(),
{
    if s.len() == 0 {
        seq![]
    } else {
        all_events(s.drop_last()) + s.last().1
    }
}

/// The streams after appending `event` to the stream `name`: its events
/// gain the event at the end, or a new stream is added last.
pub open spec fn appended(
    s: Seq<(Seq<char>, Seq<InsuranceEvent>)>,
    name: Seq<char>,
    event: InsuranceEvent,
) -> Seq<(Seq<char>, Seq<InsuranceEvent>)> {
    if exists|i: int| 0 <= i < s.len() && #[trigger] s[i].0 == name {
        let i = choose|i: int| 0 <= i < s.len() && #[trigger] s[i].0 == name;
        s.update(i, (name, s[i].1.push(event)))
    } else {
        s.push((name, seq![event]))
    }
}

impl View for InMemoryEventStore {
    type V = Seq<(Seq<char>, Seq<InsuranceEvent>)>;

    closed spec fn view(&self) -> Seq<(Seq<char>, Seq<InsuranceEvent>)> {
        stream_views(self.streams@)
    }
}

fn clone_events(v: &Vec<InsuranceEvent>) -> (r: Vec<InsuranceEvent>)
    ensures
        r@ == v@,
{
    let mut r: Vec<InsuranceEvent> = Vec::new();
    let mut i: usize = 0;
    while i < v.len()
        invariant
            i <= v.len(),
            r@ == v@.subrange(0, i as int),
        decreases v.len() - i,
    {
        r.push(v[i].clone());
        i = i + 1;
        assert(r@ =~= v@.subrange(0, i as int));
    }
    assert(v@.subrange(0, v@.len() as int) =~= v@);
    r
}

proof fn lemma_stream_events_at(s: Seq<(Seq<char>, Seq<InsuranceEvent>)>, i: int)
    requires
        names_distinct(s),
        0 <= i < s.len(),
    ensures
        stream_events(s, s[i].0) == s[i].1,
    decreases s.len(),
{
    if i < s.len() - 1 {
        let p = s.drop_last();
        assert(s.last() == s[s.len() - 1]);
        assert(s[s.len() - 1].0 != s[i].0);
        assert(names_distinct(p)) by {
            assert forall|a: int, b: int| 0 <= a < b < p.len() implies #[trigger] p[a].0
                != #[trigger] p[b].0 by {
                assert(p[a] == s[a] && p[b] == s[b]);
            }
        }
        assert(p[i] == s[i]);
        lemma_stream_events_at(p, i);
    }
}

proof fn lemma_stream_events_absent(s: Seq<(Seq<char>, Seq<InsuranceEvent>)>, name: Seq<char>)
    requires
        forall|i: int| 0 <= i < s.len() ==> #[trigger] s[i].0 != name,
    ensures
        stream_events(s, name) == Seq::<InsuranceEvent>::empty(),
    decreases s.len(),
{
    if s.len() > 0 {
        let p = s.drop_last();
        assert(s.last() == s[s.len() - 1]);
        assert forall|i: int| 0 <= i < p.len() implies #[trigger] p[i].0 != name by {
            assert(p[i] == s[i]);
        }
        lemma_stream_events_absent(p, name);
    }
}

impl InMemoryEventStore {
    pub open spec fn wf(&self) -> bool {
        names_distinct(self@)
    }

    pub fn new() -> (r: Self)
        ensures
            r@ == Seq::<(Seq<char>, Seq<InsuranceEvent>)>::empty(),
            r.wf(),
    {
        let r = InMemoryEventStore { streams: Vec::new() };
        assert(r@ =~= Seq::<(Seq<char>, Seq<InsuranceEvent>)>::empty());
        r
    }

    fn find(&self, stream: &str) -> (r: Option<usize>)
        ensures
            (match r {
                Some(i) => i < self@.len() && self@[i as int].0 == stream@,
                None => forall|i: int| 0 <= i < self@.len() ==> #[trigger] self@[i].0 != stream@,
            }),
    {
        let target = crate::text::chars_of(stream);
        let mut i: usize = 0;
        while i < self.streams.len()
            invariant
                i <= self.streams.len(),
                target@ == stream@,
                self@ == stream_views(self.streams@),
                forall|k: int| 0 <= k < i ==> #[trigger] self@[k].0 != stream@,
            decreases self.streams.len() - i,
        {
            let name = crate::text::chars_of(self.streams[i].0.as_str());
            if crate::text::chars_equal(&name, &target) {
                assert(self@[i as int].0 == self.streams@[i as int].0@);
                return Some(i);
            }
            assert(self@[i as int].0 == self.streams@[i as int].0@);
            i = i + 1;
        }
        None
    }

    /// Adds the event at the end of its stream, opening the stream if it
    /// is new.
    pub fn append(&mut self, stream: &str, event: InsuranceEvent)
        requires
            old(self).wf(),
        ensures
            final(self).wf(),
            final(self)@ == appended(old(self)@, stream@, event),
    {
        let ghost before = self@;
        match self.find(stream) {
            Some(i) => {
                let ghost j = choose|j: int| 0 <= j < before.len() && #[trigger] before[j].0 == stream@;
                assert(j == i as int) by {
                    if j != i as int {
                        if j < i {
                            assert(before[j].0 != before[i as int].0);
                        } else {
                            assert(before[i as int].0 != before[j].0);
                        }
                    }
                }
                let mut entry = self.streams.remove(i);
                entry.1.push(event);
                self.streams.insert(i, entry);
                assert(self@ =~= before.update(i as int, (stream@, before[i as int].1.push(event))));
            },
            None => {
                self.streams.push((String::from_str(stream), {
                    let mut v: Vec<InsuranceEvent> = Vec::new();
                    v.push(event);
                    v
                }));
                assert(self@ =~= before.push((stream@, seq![event])));
            },
        }
    }

    /// The events of one stream, in the order they were appended.
    pub fn load(&self, stream: &str) -> (r: Vec<InsuranceEvent>)
        requires
            self.wf(),
        ensures
            r@ == stream_events(self@, stream@),
    {
        match self.find(stream) {
            Some(i) => {
                proof {
                    lemma_stream_events_at(self@, i as int);
                }
                assert(self@[i as int].1 == self.streams@[i as int].1@);
                clone_events(&self.streams[i].1)
            },
            None => {
                proof {
                    lemma_stream_events_absent(self@, stream@);
                }
                let r: Vec<InsuranceEvent> = Vec::new();
                assert(r@ =~= stream_events(self@, stream@));
                r
            },
        }
    }

    /// Every event, stream by stream in first-write order.
    pub fn load_all(&self) -> (r: Vec<InsuranceEvent>)
        ensures
            r@ == all_events(self@),
    {
        let mut r: Vec<InsuranceEvent> = Vec::new();
        let mut i: usize = 0;
        while i < self.streams.len()
            invariant
                i <= self.streams.len(),
                self@ == stream_views(self.streams@),
                r@ == all_events(self@.subrange(0, i as int)),
            decreases self.streams.len() - i,
        {
            let ghost pre = self@.subrange(0, i as int);
            let ghost cur = self@.subrange(0, i + 1);
            assert(cur.drop_last() =~= pre);
            let part = clone_events(&self.streams[i].1);
            let mut part = part;
            r.append(&mut part);
            assert(cur.last().1 == self.streams@[i as int].1@);
            i = i + 1;
        }
        assert(self@.subrange(0, self@.len() as int) =~= self@);
        r
    }
}

/// Reading a stream gives back what was written to it: after appending an
/// event to a stream, loading that stream gives its earlier events and
/// then the new one, every other stream reads as before, and stream names
/// stay distinct.
pub proof fn lemma_append_then_load(
    s: Seq<(Seq<char>, Seq<InsuranceEvent>)>,
    name: Seq<char>,
    e: InsuranceEvent,
    other: Seq<char>,
)
    requires
        names_distinct(s),
    ensures
        names_distinct(appended(s, name, e)),
        stream_events(appended(s, name, e), name) == stream_events(s, name).push(e),
        other != name ==> stream_events(appended(s, name, e), other) == stream_events(s, other),
{
    let t = appended(s, name, e);
    if exists|i: int| 0 <= i < s.len() && #[trigger] s[i].0 == name {
        let i = choose|i: int| 0 <= i < s.len() && #[trigger] s[i].0 == name;
        assert(t == s.update(i, (name, s[i].1.push(e))));
        assert(names_distinct(t)) by {
            assert forall|a: int, b: int| 0 <= a < b < t.len() implies #[trigger] t[a].0
                != #[trigger] t[b].0 by {
                assert(t[a].0 == s[a].0 && t[b].0 == s[b].0);
            }
        }
        lemma_stream_events_at(t, i);
        lemma_stream_events_at(s, i);
        if other != name {
            if exists|j: int| 0 <= j < s.len() && #[trigger] s[j].0 == other {
                let j = choose|j: int| 0 <= j < s.len() && #[trigger] s[j].0 == other;
                lemma_stream_events_at(t, j);
                lemma_stream_events_at(s, j);
            } else {
                assert forall|j: int| 0 <= j < t.len() implies #[trigger] t[j].0 != other by {
                    assert(t[j].0 == s[j].0);
                }
                lemma_stream_events_absent(t, other);
                lemma_stream_events_absent(s, other);
            }
        }
    } else {
        assert(t == s.push((name, seq![e])));
        assert(names_distinct(t)) by {
            assert forall|a: int, b: int| 0 <= a < b < t.len() implies #[trigger] t[a].0
                != #[trigger] t[b].0 by {
                if b == s.len() {
                    assert(t[a] == s[a]);
                } else {
                    assert(t[a] == s[a] && t[b] == s[b]);
                }
            }
        }
        assert(t.drop_last() =~= s);
        lemma_stream_events_absent(s, name);
        assert(seq![e] =~= Seq::<InsuranceEvent>::empty().push(e));
    }
}

/// A bus that keeps every published event in memory.
#[derive(Debug)]
pub struct InMemoryEventBus {
    events: Vec<InsuranceEvent>,
}

impl View for InMemoryEventBus {
    type V = Seq<InsuranceEvent>;

    closed spec fn view(&self) -> Seq<InsuranceEvent> {
        self.events@
    }
}

impl InMemoryEventBus {
    pub fn new() -> (r: Self)
        ensures
            r@ == Seq::<InsuranceEvent>::empty(),
    {
        InMemoryEventBus { events: Vec::new() }
    }

    pub fn publish(&mut self, event: InsuranceEvent)
        ensures
            final(self)@ == old(self)@.push(event),
    {
        self.events.push(event);
    }

    /// Everything published so far, in order.
    pub fn all(&self) -> (r: Vec<InsuranceEvent>)
        ensures
            r@ == self@,
    {
        clone_events(&self.events)
    }
}

// ── policy timeline projection ─────────────────────────────────────────────

#[derive(Debug, Clone, Copy, PartialEq, Eq, Structural)]
pub enum LifecycleStage {
    QuoteCreated,
    PolicyBound,
    PolicyIssued,
}

#[derive(Debug, Clone, Copy, PartialEq, Eq, Structural)]
pub struct TimelineEntry {
    pub stage: LifecycleStage,
    pub occurred_at: i64,
}

/// What is known of one quote's way to a policy.
#[derive(Debug, PartialEq, Eq)]
pub struct PolicyTimelineProjection {
    pub quote_id: u128,
    pub policy_id: Option<u128>,
    pub customer_id: u128,
    pub product_id: u128,
    pub premium_cents: Option<i64>,
    pub currency: Option<String>,
    /// The stages reached, ordered by when they occurred.
    pub entries: Vec<TimelineEntry>,
}

pub struct TimelineSpec {
    pub quote_id: u128,
    pub policy_id: Option<u128>,
    pub customer_id: u128,
    pub product_id: u128,
    pub premium_cents: Option<i64>,
    pub currency: Option<Seq<char>>,
    pub entries: Seq<TimelineEntry>,
}

impl View for PolicyTimelineProjection {
    type V = TimelineSpec;

    open spec fn view(&self) -> TimelineSpec {
        TimelineSpec {
            quote_id: self.quote_id,
            policy_id: self.policy_id,
            customer_id: self.customer_id,
            product_id: self.product_id,
            premium_cents: self.premium_cents,
            currency: crate::insurance::opt_text(self.currency),
            entries: self.entries@,
        }
    }
}

/// `x` placed after every entry that occurred no later than it, and
/// before the later ones that end the timeline.
pub open spec fn placed(entries: Seq<TimelineEntry>, x: TimelineEntry) -> Seq<TimelineEntry>
    decreases entries.len(),
{
    if entries.len() == 0 {
        seq![x]
    } else if entries.last().occurred_at <= x.occurred_at {
        entries.push(x)
    } else {
        placed(entries.drop_last(), x).push(entries.last())
    }
}

pub open spec fn has_stage(entries: Seq<TimelineEntry>, stage: LifecycleStage) -> bool {
    exists|i: int| 0 <= i < entries.len() && #[trigger] entries[i].stage == stage
}

/// The timeline with `stage` recorded at `at`, unless it is already there.
pub open spec fn with_stage(entries: Seq<TimelineEntry>, stage: LifecycleStage, at: i64) -> Seq<
    TimelineEntry,
> {
    if has_stage(entries, stage) {
        entries
    } else {
        placed(entries, TimelineEntry { stage, occurred_at: at })
    }
}

/// Ordered by occurrence, each stage at most once.
pub open spec fn timeline_ok(entries: Seq<TimelineEntry>) -> bool {
    &&& forall|i: int, j: int|
        0 <= i < j < entries.len() ==> (#[trigger] entries[i]).occurred_at
            <= (#[trigger] entries[j]).occurred_at
    &&& forall|i: int, j: int|
        0 <= i < j < entries.len() ==> (#[trigger] entries[i]).stage != (#[trigger] entries[j]).stage
}

proof fn lemma_placed_is_insert(entries: Seq<TimelineEntry>, x: TimelineEntry, p: int)
    requires
        0 <= p <= entries.len(),
        forall|k: int| p <= k < entries.len() ==> (#[trigger] entries[k]).occurred_at > x.occurred_at,
        p == 0 || entries[p - 1].occurred_at <= x.occurred_at,
    ensures
        placed(entries, x) == entries.insert(p, x),
    decreases entries.len(),
{
    if entries.len() == 0 {
        assert(entries.insert(p, x) =~= seq![x]);
    } else if p == entries.len() {
        assert(entries.insert(p, x) =~= entries.push(x));
    } else {
        let d = entries.drop_last();
        assert(entries.last() == entries[entries.len() - 1]);
        assert forall|k: int| p <= k < d.len() implies (#[trigger] d[k]).occurred_at > x.occurred_at by {
            assert(d[k] == entries[k]);
        }
        assert(p == 0 || d[p - 1] == entries[p - 1]);
        lemma_placed_is_insert(d, x, p);
        assert(d.insert(p, x).push(entries.last()) =~= entries.insert(p, x));
    }
}

proof fn lemma_placed_has(entries: Seq<TimelineEntry>, x: TimelineEntry)
    ensures
        has_stage(placed(entries, x), x.stage),
        forall|s: LifecycleStage| has_stage(entries, s) ==> has_stage(placed(entries, x), s),
    decreases entries.len(),
{
    let r = placed(entries, x);
    if entries.len() == 0 {
        assert(r[0] == x);
    } else if entries.last().occurred_at <= x.occurred_at {
        assert(r[r.len() - 1] == x);
        assert forall|s: LifecycleStage| has_stage(entries, s) implies has_stage(r, s) by {
            let i = choose|i: int| 0 <= i < entries.len() && #[trigger] entries[i].stage == s;
            assert(r[i] == entries[i]);
        }
    } else {
        let d = entries.drop_last();
        lemma_placed_has(d, x);
        let rd = placed(d, x);
        let i0 = choose|i: int| 0 <= i < rd.len() && #[trigger] rd[i].stage == x.stage;
        assert(r[i0] == rd[i0]);
        assert forall|s: LifecycleStage| has_stage(entries, s) implies has_stage(r, s) by {
            let i = choose|i: int| 0 <= i < entries.len() && #[trigger] entries[i].stage == s;
            if i == entries.len() - 1 {
                assert(r[r.len() - 1] == entries.last());
            } else {
                assert(d[i] == entries[i]);
                assert(has_stage(d, s));
                let k = choose|k: int| 0 <= k < rd.len() && #[trigger] rd[k].stage == s;
                assert(r[k] == rd[k]);
            }
        }
    }
}

/// Records `stage` at `at` unless the timeline already has it, keeping the
/// timeline ordered by occurrence (an entry goes after those that occurred
/// no later).
fn push_unique_stage(entries: &mut Vec<TimelineEntry>, stage: LifecycleStage, at: i64)
    requires
        timeline_ok(old(entries)@),
    ensures
        final(entries)@ == with_stage(old(entries)@, stage, at),
        timeline_ok(final(entries)@),
{
    let mut i: usize = 0;
    while i < entries.len()
        invariant
            i <= entries.len(),
            timeline_ok(entries@),
            forall|k: int| 0 <= k < i ==> (#[trigger] entries@[k]).stage != stage,
        decreases entries.len() - i,
    {
        if entries[i].stage == stage {
            assert(has_stage(entries@, stage));
            return;
        }
        i = i + 1;
    }
    assert(!has_stage(entries@, stage));
    let x = TimelineEntry { stage, occurred_at: at };
    let mut p: usize = entries.len();
    while p > 0 && entries[p - 1].occurred_at > at
        invariant
            p <= entries.len(),
            forall|k: int| p <= k < entries.len() ==> (#[trigger] entries@[k]).occurred_at > at,
        decreases p,
    {
        p = p - 1;
    }
    let ghost before = entries@;
    proof {
        lemma_placed_is_insert(before, x, p as int);
    }
    entries.insert(p, x);
    assert(entries@ == before.insert(p as int, x));
    assert forall|a: int, b: int| 0 <= a < b < entries@.len() implies (#[trigger] entries@[a]).occurred_at
        <= (#[trigger] entries@[b]).occurred_at by {
        if b < p {
            assert(entries@[a] == before[a] && entries@[b] == before[b]);
        } else if b == p {
            assert(entries@[a] == before[a]);
        } else if a < p {
            assert(entries@[a] == before[a] && entries@[b] == before[b - 1]);
        } else if a == p {
            assert(entries@[b] == before[b - 1]);
        } else {
            assert(entries@[a] == before[a - 1] && entries@[b] == before[b - 1]);
        }
    }
    assert forall|a: int, b: int| 0 <= a < b < entries@.len() implies (#[trigger] entries@[a]).stage
        != (#[trigger] entries@[b]).stage by {
        if b < p {
            assert(entries@[a] == before[a] && entries@[b] == before[b]);
        } else if b == p {
            assert(entries@[a] == before[a]);
        } else if a < p {
            assert(entries@[a] == before[a] && entries@[b] == before[b - 1]);
        } else if a == p {
            assert(entries@[b] == before[b - 1]);
        } else {
            assert(entries@[a] == before[a - 1] && entries@[b] == before[b - 1]);
        }
    }
}

/// Timelines by quote, and the quote each issued policy came from.
#[derive(Debug)]
pub struct EventProjector {
    by_quote: HashMap<u128, PolicyTimelineProjection>,
    policy_to_quote: HashMap<u128, u128>,
}

pub struct ProjectorSpec {
    pub timelines: Map<u128, TimelineSpec>,
    pub policy_quotes: Map<u128, u128>,
}

impl View for EventProjector {
    type V = ProjectorSpec;

    closed spec fn view(&self) -> ProjectorSpec {
        ProjectorSpec {
            timelines: self.by_quote@.map_values(|t: PolicyTimelineProjection| t@),
            policy_quotes: self.policy_to_quote@,
        }
    }
}

/// Every timeline is filed under its own quote and is ordered, with each
/// stage at most once.
pub open spec fn projection_ok(p: ProjectorSpec) -> bool {
    forall|q: u128|
        #[trigger] p.timelines.contains_key(q) ==> p.timelines[q].quote_id == q && timeline_ok(
            p.timelines[q].entries,
        )
}

/// The projection after one event. Quote events create the quote's
/// timeline if needed and refresh its customer, product and (for quote
/// creation) price; issuance also records the policy and maps it to the
/// quote. Each event's stage is recorded once.
pub open spec fn project(p: ProjectorSpec, e: InsuranceEvent) -> ProjectorSpec {
    match e {
        InsuranceEvent::QuoteCreated(q) => {
            let base = if p.timelines.contains_key(q.quote_id) {
                p.timelines[q.quote_id]
            } else {
                TimelineSpec {
                    quote_id: q.quote_id,
                    policy_id: None,
                    customer_id: q.customer_id,
                    product_id: q.product_id,
                    premium_cents: Some(q.premium_cents),
                    currency: Some(q.currency@),
                    entries: seq![],
                }
            };
            ProjectorSpec {
                timelines: p.timelines.insert(
                    q.quote_id,
                    TimelineSpec {
                        customer_id: q.customer_id,
                        product_id: q.product_id,
                        premium_cents: Some(q.premium_cents),
                        currency: Some(q.currency@),
                        entries: with_stage(base.entries, LifecycleStage::QuoteCreated, q.occurred_at),
                        ..base
                    },
                ),
                ..p
            }
        },
        InsuranceEvent::PolicyBound(b) => {
            let base = if p.timelines.contains_key(b.quote_id) {
                p.timelines[b.quote_id]
            } else {
                TimelineSpec {
                    quote_id: b.quote_id,
                    policy_id: None,
                    customer_id: b.customer_id,
                    product_id: b.product_id,
                    premium_cents: None,
                    currency: None,
                    entries: seq![],
                }
            };
            ProjectorSpec {
                timelines: p.timelines.insert(
                    b.quote_id,
                    TimelineSpec {
                        customer_id: b.customer_id,
                        product_id: b.product_id,
                        entries: with_stage(base.entries, LifecycleStage::PolicyBound, b.occurred_at),
                        ..base
                    },
                ),
                ..p
            }
        },
        InsuranceEvent::PolicyIssued(i) => {
            let base = if p.timelines.contains_key(i.quote_id) {
                p.timelines[i.quote_id]
            } else {
                TimelineSpec {
                    quote_id: i.quote_id,
                    policy_id: Some(i.policy_id),
                    customer_id: i.customer_id,
                    product_id: i.product_id,
                    premium_cents: Some(i.premium_cents),
                    currency: Some(i.currency@),
                    entries: seq![],
                }
            };
            ProjectorSpec {
                timelines: p.timelines.insert(
                    i.quote_id,
                    TimelineSpec {
                        policy_id: Some(i.policy_id),
                        customer_id: i.customer_id,
                        product_id: i.product_id,
                        premium_cents: Some(i.premium_cents),
                        currency: Some(i.currency@),
                        entries: with_stage(base.entries, LifecycleStage::PolicyIssued, i.occurred_at),
                        ..base
                    },
                ),
                policy_quotes: p.policy_quotes.insert(i.policy_id, i.quote_id),
            }
        },
    }
}

/// The projection after a sequence of events, applied in order.
pub open spec fn project_all(p: ProjectorSpec, events: Seq<InsuranceEvent>) -> ProjectorSpec
    decreases events.len(),
{
    if events.len() == 0 {
        p
    } else {
        project(project_all(p, events.drop_last()), events.last())
    }
}

proof fn lemma_with_stage_again(entries: Seq<TimelineEntry>, stage: LifecycleStage, at: i64, at2: i64)
    ensures
        with_stage(with_stage(entries, stage, at), stage, at2) == with_stage(entries, stage, at),
{
    if !has_stage(entries, stage) {
        lemma_placed_has(entries, TimelineEntry { stage, occurred_at: at });
    }
}

/// Replaying an event changes nothing: applying the same event twice
/// leaves the projection as applying it once does.
pub proof fn lemma_replay_is_harmless(p: ProjectorSpec, e: InsuranceEvent)
    ensures
        project(project(p, e), e) == project(p, e),
{
    let p1 = project(p, e);
    let p2 = project(p1, e);
    match e {
        InsuranceEvent::QuoteCreated(q) => {
            let t1 = p1.timelines[q.quote_id];
            let base = if p.timelines.contains_key(q.quote_id) {
                p.timelines[q.quote_id]
            } else {
                TimelineSpec {
                    quote_id: q.quote_id,
                    policy_id: None,
                    customer_id: q.customer_id,
                    product_id: q.product_id,
                    premium_cents: Some(q.premium_cents),
                    currency: Some(q.currency@),
                    entries: seq![],
                }
            };
            lemma_with_stage_again(base.entries, LifecycleStage::QuoteCreated, q.occurred_at, q.occurred_at);
            assert(p2.timelines[q.quote_id] == t1);
            assert(p2.timelines =~= p1.timelines);
        },
        InsuranceEvent::PolicyBound(b) => {
            let t1 = p1.timelines[b.quote_id];
            let base = if p.timelines.contains_key(b.quote_id) {
                p.timelines[b.quote_id]
            } else {
                TimelineSpec {
                    quote_id: b.quote_id,
                    policy_id: None,
                    customer_id: b.customer_id,
                    product_id: b.product_id,
                    premium_cents: None,
                    currency: None,
                    entries: seq![],
                }
            };
            lemma_with_stage_again(base.entries, LifecycleStage::PolicyBound, b.occurred_at, b.occurred_at);
            assert(p2.timelines[b.quote_id] == t1);
            assert(p2.timelines =~= p1.timelines);
        },
        InsuranceEvent::PolicyIssued(i) => {
            let t1 = p1.timelines[i.quote_id];
            let base = if p.timelines.contains_key(i.quote_id) {
                p.timelines[i.quote_id]
            } else {
                TimelineSpec {
                    quote_id: i.quote_id,
                    policy_id: Some(i.policy_id),
                    customer_id: i.customer_id,
                    product_id: i.product_id,
                    premium_cents: Some(i.premium_cents),
                    currency: Some(i.currency@),
                    entries: seq![],
                }
            };
            lemma_with_stage_again(base.entries, LifecycleStage::PolicyIssued, i.occurred_at, i.occurred_at);
            assert(p2.timelines[i.quote_id] == t1);
            assert(p2.timelines =~= p1.timelines);
            assert(p2.policy_quotes =~= p1.policy_quotes);
        },
    }
}

/// After a policy's issuance is applied, looking the policy up finds the
/// timeline of the quote it was issued from.
pub proof fn lemma_issued_policy_finds_its_quote(p: ProjectorSpec, i: PolicyIssued)
    ensures
        project(p, InsuranceEvent::PolicyIssued(i)).policy_quotes[i.policy_id] == i.quote_id,
        project(p, InsuranceEvent::PolicyIssued(i)).timelines.contains_key(i.quote_id),
        project(p, InsuranceEvent::PolicyIssued(i)).timelines[i.quote_id].policy_id == Some(
            i.policy_id,
        ),
{
}

/// The entries a quote's timeline had before an event (none when the
/// quote had no timeline).
pub open spec fn prior_entries(p: ProjectorSpec, quote_id: u128) -> Seq<TimelineEntry> {
    if p.timelines.contains_key(quote_id) {
        p.timelines[quote_id].entries
    } else {
        seq![]
    }
}

/// `after` is `before` with the stage recorded at `at`: unchanged when the
/// stage was already there, else the same entries plus that one.
pub open spec fn records_stage(
    before: Seq<TimelineEntry>,
    after: Seq<TimelineEntry>,
    stage: LifecycleStage,
    at: i64,
) -> bool {
    &&& has_stage(after, stage)
    &&& has_stage(before, stage) ==> after == before
    &&& !has_stage(before, stage) ==> after.to_multiset() == before.to_multiset().insert(
        TimelineEntry { stage, occurred_at: at },
    )
}

/// Timelines of quotes other than `quote_id` are as they were.
pub open spec fn others_unchanged(before: ProjectorSpec, after: ProjectorSpec, quote_id: u128) -> bool {
    forall|k: u128|
        k != quote_id ==> (#[trigger] after.timelines.contains_key(k) == before.timelines.contains_key(k))
            && (before.timelines.contains_key(k) ==> after.timelines[k] == before.timelines[k])
}

proof fn lemma_placed_adds(entries: Seq<TimelineEntry>, x: TimelineEntry)
    ensures
        placed(entries, x).to_multiset() == entries.to_multiset().insert(x),
    decreases entries.len(),
{
    broadcast use vstd::seq_lib::group_to_multiset_ensures;

    if entries.len() == 0 {
        assert(seq![x] =~= Seq::<TimelineEntry>::empty().push(x));
    } else if entries.last().occurred_at <= x.occurred_at {
    } else {
        let d = entries.drop_last();
        lemma_placed_adds(d, x);
        assert(entries =~= d.push(entries.last()));
        assert(placed(entries, x).to_multiset() =~= entries.to_multiset().insert(x));
    }
}

proof fn lemma_with_stage_records(entries: Seq<TimelineEntry>, stage: LifecycleStage, at: i64)
    ensures
        records_stage(entries, with_stage(entries, stage, at), stage, at),
{
    if !has_stage(entries, stage) {
        lemma_placed_has(entries, TimelineEntry { stage, occurred_at: at });
        lemma_placed_adds(entries, TimelineEntry { stage, occurred_at: at });
    }
}

/// A created quote's timeline takes the quote's customer, product, price
/// and currency, keeps any policy it already had (none for a new one),
/// and records the quote's creation; no other quote's timeline changes.
pub proof fn lemma_quote_created_prices_its_timeline(p: ProjectorSpec, q: QuoteCreated)
    requires
        projection_ok(p),
    ensures
        ({
            let after = project(p, InsuranceEvent::QuoteCreated(q));
            let t = after.timelines[q.quote_id];
            &&& after.timelines.contains_key(q.quote_id)
            &&& t.quote_id == q.quote_id
            &&& t.customer_id == q.customer_id
            &&& t.product_id == q.product_id
            &&& t.premium_cents == Some(q.premium_cents)
            &&& t.currency == Some(q.currency@)
            &&& t.policy_id == (if p.timelines.contains_key(q.quote_id) {
                p.timelines[q.quote_id].policy_id
            } else {
                None
            })
            &&& records_stage(
                prior_entries(p, q.quote_id),
                t.entries,
                LifecycleStage::QuoteCreated,
                q.occurred_at,
            )
            &&& others_unchanged(p, after, q.quote_id)
            &&& after.policy_quotes == p.policy_quotes
        }),
{
    lemma_with_stage_records(prior_entries(p, q.quote_id), LifecycleStage::QuoteCreated, q.occurred_at);
    if !p.timelines.contains_key(q.quote_id) {
        assert(prior_entries(p, q.quote_id) =~= seq![]);
    }
}

/// Binding refreshes the customer and product of its quote's timeline and
/// records the binding; the price, currency and policy stay as they were
/// (none for a timeline the binding starts).
pub proof fn lemma_binding_keeps_the_price(p: ProjectorSpec, b: PolicyBound)
    requires
        projection_ok(p),
    ensures
        ({
            let after = project(p, InsuranceEvent::PolicyBound(b));
            let t = after.timelines[b.quote_id];
            let had = p.timelines.contains_key(b.quote_id);
            &&& after.timelines.contains_key(b.quote_id)
            &&& t.quote_id == b.quote_id
            &&& t.customer_id == b.customer_id
            &&& t.product_id == b.product_id
            &&& t.premium_cents == (if had { p.timelines[b.quote_id].premium_cents } else { None })
            &&& t.currency == (if had { p.timelines[b.quote_id].currency } else { None })
            &&& t.policy_id == (if had { p.timelines[b.quote_id].policy_id } else { None })
            &&& records_stage(
                prior_entries(p, b.quote_id),
                t.entries,
                LifecycleStage::PolicyBound,
                b.occurred_at,
            )
            &&& others_unchanged(p, after, b.quote_id)
            &&& after.policy_quotes == p.policy_quotes
        }),
{
    lemma_with_stage_records(prior_entries(p, b.quote_id), LifecycleStage::PolicyBound, b.occurred_at);
    if !p.timelines.contains_key(b.quote_id) {
        assert(prior_entries(p, b.quote_id) =~= seq![]);
    }
}

/// Issuance sets its quote's timeline to the issued policy, customer,
/// product, premium and currency (the issued premium replaces the quoted
/// one), records the issuance, and maps the policy to the quote; no other
/// quote's timeline changes and no other policy's mapping.
pub proof fn lemma_issuance_sets_the_issued_terms(p: ProjectorSpec, i: PolicyIssued)
    requires
        projection_ok(p),
    ensures
        ({
            let after = project(p, InsuranceEvent::PolicyIssued(i));
            let t = after.timelines[i.quote_id];
            &&& after.timelines.contains_key(i.quote_id)
            &&& t.quote_id == i.quote_id
            &&& t.policy_id == Some(i.policy_id)
            &&& t.customer_id == i.customer_id
            &&& t.product_id == i.product_id
            &&& t.premium_cents == Some(i.premium_cents)
            &&& t.currency == Some(i.currency@)
            &&& records_stage(
                prior_entries(p, i.quote_id),
                t.entries,
                LifecycleStage::PolicyIssued,
                i.occurred_at,
            )
            &&& others_unchanged(p, after, i.quote_id)
            &&& after.policy_quotes.contains_key(i.policy_id)
            &&& after.policy_quotes[i.policy_id] == i.quote_id
            &&& forall|k: u128|
                k != i.policy_id ==> (#[trigger] after.policy_quotes.contains_key(k)
                    == p.policy_quotes.contains_key(k)) && (p.policy_quotes.contains_key(k)
                    ==> after.policy_quotes[k] == p.policy_quotes[k])
        }),
{
    lemma_with_stage_records(prior_entries(p, i.quote_id), LifecycleStage::PolicyIssued, i.occurred_at);
    if !p.timelines.contains_key(i.quote_id) {
        assert(prior_entries(p, i.quote_id) =~= seq![]);
    }
}

impl EventProjector {
    pub open spec fn wf(&self) -> bool {
        projection_ok(self@)
    }

    pub fn new() -> (r: Self)
        ensures
            r@.timelines == Map::<u128, TimelineSpec>::empty(),
            r@.policy_quotes == Map::<u128, u128>::empty(),
            r.wf(),
    {
        let r = EventProjector { by_quote: HashMap::new(), policy_to_quote: HashMap::new() };
        assert(r@.timelines =~= Map::<u128, TimelineSpec>::empty());
        r
    }

    fn take_timeline(&mut self, quote_id: u128, fresh: PolicyTimelineProjection) -> (r:
        PolicyTimelineProjection)
        requires
            old(self).wf(),
            fresh.quote_id == quote_id,
            fresh.entries@.len() == 0,
        ensures
            final(self)@.timelines == old(self)@.timelines.remove(quote_id),
            final(self)@.policy_quotes == old(self)@.policy_quotes,
            r@ == (if old(self)@.timelines.contains_key(quote_id) {
                old(self)@.timelines[quote_id]
            } else {
                fresh@
            }),
            r.quote_id == quote_id,
            timeline_ok(r.entries@),
    {
        let ghost before = self@;
        let r = match self.by_quote.remove(&quote_id) {
            Some(t) => t,
            None => fresh,
        };
        assert(self@.timelines =~= before.timelines.remove(quote_id));
        r
    }

    fn put_timeline(&mut self, t: PolicyTimelineProjection)
        ensures
            final(self)@.timelines == old(self)@.timelines.insert(t.quote_id, t@),
            final(self)@.policy_quotes == old(self)@.policy_quotes,
    {
        let ghost before = self@;
        let key = t.quote_id;
        let ghost tv = t@;
        self.by_quote.insert(key, t);
        assert(self@.timelines =~= before.timelines.insert(key, tv));
    }

    /// Applies one event to the projection (see `project`).
    pub fn apply(&mut self, event: &InsuranceEvent)
        requires
            old(self).wf(),
        ensures
            final(self).wf(),
            final(self)@ == project(old(self)@, *event),
    {
        let ghost before = self@;
        match event {
            InsuranceEvent::QuoteCreated(e) => {
                let fresh = PolicyTimelineProjection {
                    quote_id: e.quote_id,
                    policy_id: None,
                    customer_id: e.customer_id,
                    product_id: e.product_id,
                    premium_cents: Some(e.premium_cents),
                    currency: Some(e.currency.clone()),
                    entries: Vec::new(),
                };
                let mut t = self.take_timeline(e.quote_id, fresh);
                t.customer_id = e.customer_id;
                t.product_id = e.product_id;
                t.premium_cents = Some(e.premium_cents);
                t.currency = Some(e.currency.clone());
                push_unique_stage(&mut t.entries, LifecycleStage::QuoteCreated, e.occurred_at);
                self.put_timeline(t);
                assert(self@.timelines =~= project(before, *event).timelines);
            },
            InsuranceEvent::PolicyBound(e) => {
                let fresh = PolicyTimelineProjection {
                    quote_id: e.quote_id,
                    policy_id: None,
                    customer_id: e.customer_id,
                    product_id: e.product_id,
                    premium_cents: None,
                    currency: None,
                    entries: Vec::new(),
                };
                let mut t = self.take_timeline(e.quote_id, fresh);
                t.customer_id = e.customer_id;
                t.product_id = e.product_id;
                push_unique_stage(&mut t.entries, LifecycleStage::PolicyBound, e.occurred_at);
                self.put_timeline(t);
                assert(self@.timelines =~= project(before, *event).timelines);
            },
            InsuranceEvent::PolicyIssued(e) => {
                let fresh = PolicyTimelineProjection {
                    quote_id: e.quote_id,
                    policy_id: Some(e.policy_id),
                    customer_id: e.customer_id,
                    product_id: e.product_id,
                    premium_cents: Some(e.premium_cents),
                    currency: Some(e.currency.clone()),
                    entries: Vec::new(),
                };
                let mut t = self.take_timeline(e.quote_id, fresh);
                t.policy_id = Some(e.policy_id);
                t.customer_id = e.customer_id;
                t.product_id = e.product_id;
                t.premium_cents = Some(e.premium_cents);
                t.currency = Some(e.currency.clone());
                push_unique_stage(&mut t.entries, LifecycleStage::PolicyIssued, e.occurred_at);
                self.put_timeline(t);
                self.policy_to_quote.insert(e.policy_id, e.quote_id);
                assert(self@.timelines =~= project(before, *event).timelines);
                assert(self@.policy_quotes =~= project(before, *event).policy_quotes);
            },
        }
    }

    /// Applies the events in order.
    pub fn apply_all(&mut self, events: &Vec<InsuranceEvent>)
        requires
            old(self).wf(),
        ensures
            final(self).wf(),
            final(self)@ == project_all(old(self)@, events@),
    {
        let ghost start = self@;
        let mut i: usize = 0;
        while i < events.len()
            invariant
                i <= events.len(),
                self.wf(),
                self@ == project_all(start, events@.subrange(0, i as int)),
            decreases events.len() - i,
        {
            let ghost cur = events@.subrange(0, i + 1);
            assert(cur.drop_last() =~= events@.subrange(0, i as int));
            self.apply(&events[i]);
            i = i + 1;
        }
        assert(events@.subrange(0, events@.len() as int) =~= events@);
    }

    /// The timeline of a quote, if any event about it was applied.
    pub fn timeline_by_quote(&self, quote_id: u128) -> (r: Option<&PolicyTimelineProjection>)
        ensures
            (match r {
                Some(t) => self@.timelines.contains_key(quote_id) && t@ == self@.timelines[quote_id],
                None => !self@.timelines.contains_key(quote_id),
            }),
    {
        self.by_quote.get(&quote_id)
    }

    /// The timeline of the quote a policy was issued from.
    pub fn timeline_by_policy(&self, policy_id: u128) -> (r: Option<&PolicyTimelineProjection>)
        ensures
            (match r {
                Some(t) => self@.policy_quotes.contains_key(policy_id)
                    && self@.timelines.contains_key(self@.policy_quotes[policy_id])
                    && t@ == self@.timelines[self@.policy_quotes[policy_id]],
                None => !self@.policy_quotes.contains_key(policy_id) || !self@.timelines.contains_key(
                    self@.policy_quotes[policy_id],
                ),
            }),
    {
        match self.policy_to_quote.get(&policy_id) {
            Some(q) => self.by_quote.get(q),
            None => None,
        }
    }

    /// How many quotes have a timeline.
    pub fn timeline_count(&self) -> (r: usize)
        ensures
            r == self@.timelines.len(),
    {
        assert(self@.timelines.dom() =~= self.by_quote@.dom());
        self.by_quote.len()
    }
}

} // verus!
