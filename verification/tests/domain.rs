use sagepas::auth::{AuthSource, AuthenticatedUser, PasRole, UserRole};
use sagepas::ids::{CustomerId, QuoteId};
use sagepas::pas_domain::{
    AccountNumber, BindInput, ClaimNumber, CoverageSelection, CoverageStatus, CustomerRef,
    LineOfBusiness, PasValidationError, PaymentStatus, PolicyNumber, PolicyStatus, QuoteInput,
    QuoteNumber, QuoteStatus,
};

fn customer_ref() -> CustomerRef {
    CustomerRef {
        customer_id: CustomerId::new(),
        account_number: AccountNumber::deterministic("account-a"),
    }
}

/// 2026-06-01 as days since the Unix epoch.
const JUNE_1_2026: i64 = 20_605;

#[test]
fn deterministic_numbers_are_prefixed_and_stable() {
    let one = PolicyNumber::deterministic("quote-123");
    let two = PolicyNumber::deterministic("quote-123");
    assert_eq!(one, two);
    assert!(one.as_str().starts_with("POL-2026-"));
    assert_eq!(
        QuoteNumber::new("QUO-2026-000123").unwrap().as_str(),
        "QUO-2026-000123"
    );
    assert!(ClaimNumber::new("CLM-2026-ABC123").is_err());
}

#[test]
fn validates_quote_input() {
    let input = QuoteInput {
        customer: customer_ref(),
        line_of_business: LineOfBusiness::Homeowners,
        state: "TX".to_string(),
        effective_date: JUNE_1_2026,
        coverages: vec![CoverageSelection {
            code: "COV_A".to_string(),
            limit: 300_000,
            deductible: 2_500,
            status: CoverageStatus::Requested,
        }],
    };

    assert_eq!(input.validate(), Ok(()));
}

#[test]
fn rejects_failed_payment_bind() {
    let input = BindInput {
        quote_id: QuoteId::new(),
        account_number: AccountNumber::deterministic("account-a"),
        payment_status: PaymentStatus::Failed,
    };

    assert!(matches!(
        input.validate(),
        Err(PasValidationError::InvalidField {
            field: "payment_status",
            ..
        })
    ));
}

#[test]
fn exposes_lifecycle_transition_rules() {
    assert!(QuoteStatus::Offered.can_transition_to(&QuoteStatus::Bound));
    assert!(!QuoteStatus::Draft.can_transition_to(&QuoteStatus::Bound));
    assert!(PolicyStatus::PendingIssue.can_transition_to(&PolicyStatus::Active));
    assert!(!PolicyStatus::Expired.can_transition_to(&PolicyStatus::Active));
}

#[test]
fn from_claim_maps_known_roles_case_insensitively() {
    assert_eq!(PasRole::from_claim("Admin"), Some(PasRole::Admin));
    assert_eq!(PasRole::from_claim("AGENT"), Some(PasRole::Agent));
    assert_eq!(PasRole::from_claim("underwriter"), Some(PasRole::Underwriter));
    assert_eq!(PasRole::from_claim("Customer"), Some(PasRole::Customer));
    assert_eq!(PasRole::from_claim("pas.admin"), Some(PasRole::Admin));
}

#[test]
fn from_claim_rejects_unknown_values_instead_of_defaulting() {
    assert_eq!(PasRole::from_claim("superuser"), None);
    assert_eq!(PasRole::from_claim(""), None);
    assert_eq!(PasRole::from_claim("global admin"), None);
}

#[test]
fn from_user_role_maps_every_legacy_role() {
    assert_eq!(PasRole::from_user_role(UserRole::Consumer), Some(PasRole::Customer));
    assert_eq!(PasRole::from_user_role(UserRole::Agent), Some(PasRole::Agent));
    assert_eq!(PasRole::from_user_role(UserRole::Broker), Some(PasRole::Agent));
    assert_eq!(PasRole::from_user_role(UserRole::Insurer), Some(PasRole::Underwriter));
    assert_eq!(PasRole::from_user_role(UserRole::Regulator), Some(PasRole::Admin));
}

#[test]
fn has_any_role_checks_membership() {
    let user = AuthenticatedUser {
        oid: "test-oid".to_string(),
        email: None,
        name: None,
        tenant_id: None,
        raw_roles: vec!["agent".to_string()],
        pas_roles: vec![PasRole::Agent],
        source: AuthSource::Entra,
    };
    assert!(user.has_any_role(&[PasRole::Agent, PasRole::Admin]));
    assert!(!user.has_any_role(&[PasRole::Customer]));
}

// ── further cases ──────────────────────────────────────────────────────────

#[test]
fn business_numbers_reject_wrong_shapes() {
    assert!(PolicyNumber::new("POL-2026-12345").is_err());
    assert!(PolicyNumber::new("POL-26-123456").is_err());
    assert!(PolicyNumber::new("QUO-2026-123456").is_err());
    assert_eq!(PolicyNumber::new("POL-2026-123456").unwrap().as_str(), "POL-2026-123456");
}

#[test]
fn deterministic_numbers_differ_by_seed_and_validate() {
    let a = ClaimNumber::deterministic("claim-a");
    let b = ClaimNumber::deterministic("claim-b");
    assert_ne!(a, b);
    assert!(ClaimNumber::new(a.as_str()).is_ok());
}

#[test]
fn terminal_quote_states_go_nowhere() {
    for next in [
        QuoteStatus::Draft,
        QuoteStatus::Offered,
        QuoteStatus::Bound,
        QuoteStatus::Declined,
        QuoteStatus::Expired,
    ] {
        assert!(!QuoteStatus::Bound.can_transition_to(&next));
    }
}
