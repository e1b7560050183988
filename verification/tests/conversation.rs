use sagepas::conversation::{
    extract_facts_from_turn, push_unique, ConversationContext, ExtractedFact, MemoryFact,
};

fn memory_fact(fact_type: &str, fact_value: &str) -> MemoryFact {
    let now = chrono::Utc::now().timestamp_micros();
    MemoryFact {
        fact_id: uuid::Uuid::new_v4().as_u128(),
        user_id: uuid::Uuid::new_v4().as_u128(),
        session_id: Some(uuid::Uuid::new_v4().as_u128()),
        fact_type: fact_type.to_string(),
        fact_key: fact_value.to_string(),
        fact_value: fact_value.to_string(),
        confidence: "1.00".to_string(),
        source_surface: "chat".to_string(),
        created_at: now,
        updated_at: now,
    }
}

#[test]
fn test_extract_policy_number() {
    let facts = extract_facts_from_turn("My policy is HO-12345", "I found HO-12345.");
    assert!(facts
        .iter()
        .any(|f| f.fact_type == "policy_number" && f.fact_value == "HO-12345"));
}

#[test]
fn test_extract_claim_id() {
    let facts = extract_facts_from_turn("Check CLM-ABC123", "Claim CLM-ABC123 is open.");
    assert!(facts
        .iter()
        .any(|f| f.fact_type == "claim_id" && f.fact_value == "CLM-ABC123"));
}

#[test]
fn test_extract_amount() {
    let facts = extract_facts_from_turn("The damage is $12,500", "Noted $12,500.");
    assert!(facts
        .iter()
        .any(|f| f.fact_type == "amount" && f.fact_value == "$12,500"));
}

#[test]
fn test_context_injection_format() {
    let context = ConversationContext {
        session_id: uuid::Uuid::new_v4().as_u128(),
        messages: vec![],
        facts: vec![
            memory_fact("policy_number", "HO-12345"),
            memory_fact("claim_id", "CLM-ABC123"),
        ],
        system_prompt_injection: String::new(),
    };

    let injection = context.to_system_injection();
    assert!(injection.starts_with("Known context for this user:\n"));
    assert!(injection.contains("- policy_number: HO-12345"));
    assert!(injection.contains("- claim_id: CLM-ABC123"));
}

#[test]
fn test_no_facts_empty_injection() {
    let context = ConversationContext {
        session_id: uuid::Uuid::new_v4().as_u128(),
        messages: vec![],
        facts: vec![],
        system_prompt_injection: String::new(),
    };
    assert_eq!(context.to_system_injection(), "");
}

// ── further cases ──────────────────────────────────────────────────────────

#[test]
fn repeated_mentions_give_one_fact() {
    let facts = extract_facts_from_turn("HO-12345 and HO-12345", "HO-12345");
    assert_eq!(facts.iter().filter(|f| f.fact_type == "policy_number").count(), 1);
}

#[test]
fn names_and_dates_are_picked_up() {
    let facts = extract_facts_from_turn("Hi, my name is Jane Doe.", "Your renewal is 2026-06-01.");
    assert!(facts
        .iter()
        .any(|f| f.fact_type == "user_name" && f.fact_value == "Jane Doe"));
    assert!(facts
        .iter()
        .any(|f| f.fact_type == "date_mentioned" && f.fact_value == "2026-06-01"));
}

#[test]
fn injection_ends_without_trailing_newline() {
    let context = ConversationContext {
        session_id: 1,
        messages: vec![],
        facts: vec![memory_fact("amount", "$5")],
        system_prompt_injection: String::new(),
    };
    assert_eq!(context.to_system_injection(), "Known context for this user:\n- amount: $5");
}

#[test]
fn push_unique_skips_exact_duplicates_only() {
    let mut facts: Vec<ExtractedFact> = Vec::new();
    push_unique(&mut facts, "t", "k", "v");
    push_unique(&mut facts, "t", "k", "v");
    push_unique(&mut facts, "t", "k", "w");
    assert_eq!(facts.len(), 2);
}
