use sagepas::auth::{
    authenticated_user_from_claims, AuthSource, ClaimsRejection, EntraClaims, PasRole,
};

const TENANT_ID: &str = "11111111-1111-1111-1111-111111111111";

fn base_claims() -> EntraClaims {
    EntraClaims {
        sub: "user-subject-id".to_string(),
        oid: Some("22222222-2222-2222-2222-222222222222".to_string()),
        tid: Some(TENANT_ID.to_string()),
        email: Some("agent@example.com".to_string()),
        preferred_username: None,
        upn: None,
        name: Some("Test Agent".to_string()),
        roles: vec!["agent".to_string()],
        groups: vec![],
    }
}

#[test]
fn valid_token_produces_authenticated_user_with_mapped_roles() {
    let user = authenticated_user_from_claims(base_claims(), TENANT_ID)
        .expect("claims of the configured tenant are accepted");
    assert_eq!(user.oid, "22222222-2222-2222-2222-222222222222");
    assert_eq!(user.email.as_deref(), Some("agent@example.com"));
    assert_eq!(user.pas_roles, vec![PasRole::Agent]);
    assert_eq!(user.source, AuthSource::Entra);
}

#[test]
fn mismatched_tenant_claim_is_rejected_even_with_correct_issuer() {
    let mut claims = base_claims();
    claims.tid = Some("33333333-3333-3333-3333-333333333333".to_string());
    let result = authenticated_user_from_claims(claims, TENANT_ID);
    assert!(result.is_err(), "tid claim must match the configured tenant");
    assert_eq!(
        result.unwrap_err(),
        ClaimsRejection::TenantMismatch {
            token_tenant: "33333333-3333-3333-3333-333333333333".to_string(),
            configured_tenant: TENANT_ID.to_string(),
        }
    );
}

#[test]
fn unrecognized_role_claims_do_not_grant_any_pas_role() {
    let mut claims = base_claims();
    claims.roles = vec!["some-unrelated-app-role".to_string()];
    let user = authenticated_user_from_claims(claims, TENANT_ID)
        .expect("token itself is otherwise valid");
    assert!(
        user.pas_roles.is_empty(),
        "unknown role claims must not map to a default PAS role"
    );
}

#[test]
fn groups_claim_also_contributes_pas_roles() {
    let mut claims = base_claims();
    claims.roles = vec![];
    claims.groups = vec!["underwriter".to_string()];
    let user = authenticated_user_from_claims(claims, TENANT_ID).expect("valid claims");
    assert_eq!(user.pas_roles, vec![PasRole::Underwriter]);
    assert_eq!(user.raw_roles, vec!["underwriter".to_string()]);
}

#[test]
fn object_id_and_email_fall_back_in_order() {
    let mut claims = base_claims();
    claims.oid = Some(String::new());
    claims.email = None;
    claims.preferred_username = None;
    claims.upn = Some("agent@corp.example".to_string());
    claims.tid = None;
    let user = authenticated_user_from_claims(claims, TENANT_ID).expect("no tid is not a mismatch");
    assert_eq!(user.oid, "user-subject-id");
    assert_eq!(user.email.as_deref(), Some("agent@corp.example"));
    assert_eq!(user.tenant_id, None);
}

#[test]
fn roles_and_groups_map_once_each_in_role_order() {
    let mut claims = base_claims();
    claims.roles = vec!["Underwriter".to_string(), "agent".to_string()];
    claims.groups = vec!["agent".to_string(), "ADMIN".to_string()];
    let user = authenticated_user_from_claims(claims, TENANT_ID).expect("valid claims");
    assert_eq!(user.raw_roles.len(), 4);
    assert_eq!(
        user.pas_roles,
        vec![PasRole::Admin, PasRole::Agent, PasRole::Underwriter]
    );
}
