use sagepas::events::{
    routes_to_event_store, DefaultRoutePolicy, EventProjector, EventRoutePolicy,
    InMemoryEventBus, InMemoryEventStore, InsuranceEvent, LifecycleStage, PolicyBound,
    PolicyIssued, QuoteCreated, RouteTarget,
};

fn uuid() -> u128 {
    uuid::Uuid::new_v4().as_u128()
}

fn now_micros() -> i64 {
    chrono::Utc::now().timestamp_micros()
}

fn quote_event(quote_id: u128) -> InsuranceEvent {
    InsuranceEvent::QuoteCreated(QuoteCreated {
        event_id: uuid(),
        occurred_at: now_micros(),
        quote_id,
        customer_id: uuid(),
        product_id: uuid(),
        premium_cents: 12_345,
        currency: "USD".to_string(),
    })
}

#[test]
fn builds_timeline_from_quote_bind_issue() {
    let quote_id = uuid();
    let policy_id = uuid();
    let customer_id = uuid();
    let product_id = uuid();

    let t1 = now_micros();
    let t2 = t1 + 5 * 60 * 1_000_000;
    let t3 = t2 + 5 * 60 * 1_000_000;

    let events = vec![
        InsuranceEvent::QuoteCreated(QuoteCreated {
            event_id: uuid(),
            occurred_at: t1,
            quote_id,
            customer_id,
            product_id,
            premium_cents: 120_000,
            currency: "USD".to_string(),
        }),
        InsuranceEvent::PolicyBound(PolicyBound {
            event_id: uuid(),
            occurred_at: t2,
            quote_id,
            customer_id,
            product_id,
        }),
        InsuranceEvent::PolicyIssued(PolicyIssued {
            event_id: uuid(),
            occurred_at: t3,
            policy_id,
            quote_id,
            customer_id,
            product_id,
            premium_cents: 120_000,
            currency: "USD".to_string(),
        }),
    ];

    let mut projector = EventProjector::new();
    projector.apply_all(&events);

    let timeline = projector.timeline_by_quote(quote_id).expect("timeline by quote");
    assert_eq!(timeline.policy_id, Some(policy_id));
    assert_eq!(timeline.entries.len(), 3);
    assert_eq!(timeline.entries[0].stage, LifecycleStage::QuoteCreated);
    assert_eq!(timeline.entries[1].stage, LifecycleStage::PolicyBound);
    assert_eq!(timeline.entries[2].stage, LifecycleStage::PolicyIssued);

    let by_policy = projector.timeline_by_policy(policy_id).expect("timeline by policy");
    assert_eq!(by_policy.quote_id, quote_id);
}

#[test]
fn routes_quote_created_to_event_store() {
    let event = quote_event(uuid());
    assert_eq!(DefaultRoutePolicy.route(&event), vec![RouteTarget::EventStore]);
    assert!(routes_to_event_store(&DefaultRoutePolicy.route(&event)));
    assert!(!routes_to_event_store(&vec![]));
}

#[test]
fn in_memory_store_filters_streams_and_loads_all() {
    let mut store = InMemoryEventStore::new();
    let quote_a = uuid::Uuid::new_v4();
    let quote_b = uuid::Uuid::new_v4();
    store.append(&format!("quote-{quote_a}"), quote_event(quote_a.as_u128()));
    store.append(&format!("quote-{quote_b}"), quote_event(quote_b.as_u128()));

    assert_eq!(store.load(&format!("quote-{quote_a}")).len(), 1);
    assert_eq!(store.load_all().len(), 2);
}

// ── further cases ──────────────────────────────────────────────────────────

#[test]
fn stream_names_follow_the_quote_or_policy() {
    let q = uuid::Uuid::new_v4();
    let event = quote_event(q.as_u128());
    assert_eq!(event.stream_name(), format!("quote-{q}"));
    assert_eq!(event.event_type(), "QuoteCreated");
    let p = uuid::Uuid::new_v4();
    let issued = InsuranceEvent::PolicyIssued(PolicyIssued {
        event_id: uuid(),
        occurred_at: 7,
        policy_id: p.as_u128(),
        quote_id: q.as_u128(),
        customer_id: uuid(),
        product_id: uuid(),
        premium_cents: 1,
        currency: "USD".to_string(),
    });
    assert_eq!(issued.stream_name(), format!("policy-{p}"));
    assert_eq!(issued.occurred_at(), 7);
}

#[test]
fn replaying_an_event_changes_nothing() {
    let q = uuid();
    let events = vec![quote_event(q), quote_event(q)];
    let mut projector = EventProjector::new();
    projector.apply_all(&events);
    let t = projector.timeline_by_quote(q).unwrap();
    assert_eq!(t.entries.len(), 1);
    assert_eq!(projector.timeline_count(), 1);
}

#[test]
fn stages_are_ordered_by_occurrence_not_arrival() {
    let q = uuid();
    let c = uuid();
    let p = uuid();
    let mut projector = EventProjector::new();
    projector.apply(&InsuranceEvent::PolicyBound(PolicyBound {
        event_id: uuid(),
        occurred_at: 200,
        quote_id: q,
        customer_id: c,
        product_id: p,
    }));
    projector.apply(&InsuranceEvent::QuoteCreated(QuoteCreated {
        event_id: uuid(),
        occurred_at: 100,
        quote_id: q,
        customer_id: c,
        product_id: p,
        premium_cents: 5,
        currency: "INR".to_string(),
    }));
    let t = projector.timeline_by_quote(q).unwrap();
    assert_eq!(t.entries[0].stage, LifecycleStage::QuoteCreated);
    assert_eq!(t.entries[1].stage, LifecycleStage::PolicyBound);
    assert_eq!(t.currency.as_deref(), Some("INR"));
    assert!(projector.timeline_by_policy(uuid()).is_none());
}

#[test]
fn appended_events_read_back_in_order() {
    let mut store = InMemoryEventStore::new();
    let q = uuid();
    store.append("s", quote_event(q));
    store.append("t", quote_event(q));
    store.append("s", quote_event(q));
    assert_eq!(store.load("s").len(), 2);
    assert_eq!(store.load("t").len(), 1);
    assert!(store.load("u").is_empty());
    assert_eq!(store.load_all().len(), 3);

    let mut bus = InMemoryEventBus::new();
    bus.publish(quote_event(q));
    assert_eq!(bus.all().len(), 1);
}
