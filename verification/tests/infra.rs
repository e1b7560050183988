use sagepas::auth::{entra_endpoints, jwks_cache_fresh};
use sagepas::search::category_filter;
use sagepas::blob::{azure_error_code_hint, blob_path_from_url};
use sagepas::config::{
    default_env, default_port, default_search_endpoint, default_storage_container, AppConfig,
};
use sagepas::ids::PolicyId;
use sagepas::openai::{read_reply, response_output_text, responses_request, OutputItem, ReplyOutcome};
use sagepas::policy_lock::{lock_key, lock_rejection, locking_enabled, policy_id_from_field, PolicyLockError};
use sagepas::whatsapp::{api_failure, normalize_phone, prepare_send, WhatsAppConfig, WhatsAppError};

#[test]
fn normalizes_plain_digits() {
    assert_eq!(normalize_phone("+1 (415) 555-0100"), Some("14155550100".to_string()));
}

#[test]
fn strips_leading_00() {
    assert_eq!(normalize_phone("0044123456789"), Some("44123456789".to_string()));
}

#[test]
fn empty_is_none() {
    assert_eq!(normalize_phone("+++"), None);
}

#[test]
fn unconfigured_client_refuses_before_normalizing() {
    let config = WhatsAppConfig { access_token: String::new(), phone_id: "123".to_string() };
    assert!(!config.is_configured());
    assert!(matches!(prepare_send(&config, "+++"), Err(WhatsAppError::NotConfigured)));
    let config = WhatsAppConfig { access_token: "t".to_string(), phone_id: "123".to_string() };
    match prepare_send(&config, "+++") {
        Err(WhatsAppError::InvalidPhone(p)) => assert_eq!(p, "+++"),
        other => panic!("unexpected {other:?}"),
    }
    let (url, to) = prepare_send(&config, "00 91 98765").unwrap();
    assert_eq!(url, "https://graph.facebook.com/v18.0/123/messages");
    assert_eq!(to, "9198765");
}

#[test]
fn api_failures_keep_two_hundred_characters() {
    let body = "x".repeat(250);
    match api_failure(500, &body) {
        WhatsAppError::Api { status, body } => {
            assert_eq!(status, 500);
            assert_eq!(body.chars().count(), 200);
        }
        other => panic!("unexpected {other:?}"),
    }
}

fn base_config() -> AppConfig {
    AppConfig {
        database_url: "postgres://localhost/test".to_string(),
        redis_url: String::new(),
        storage_account_name: "acct".to_string(),
        storage_container_name: default_storage_container(),
        jwt_private_key: String::new(),
        port: default_port(),
        node_env: default_env(),
        search_endpoint: default_search_endpoint(),
        search_key: String::new(),
        azure_entra_tenant_id: String::new(),
        azure_entra_audience: String::new(),
        azure_entra_issuer: String::new(),
        dev_local_auth_enabled: false,
    }
}

#[test]
fn secure_auth_defaults_are_fail_closed() {
    let cfg = base_config();
    assert!(!cfg.dev_local_auth_enabled);
    assert!(!cfg.entra_configured());
    assert_eq!(cfg.storage_container_name, "policy-documents");
}

#[test]
fn entra_requires_tenant_and_audience() {
    let mut partial = base_config();
    partial.azure_entra_tenant_id = "tenant-guid".to_string();
    assert!(!partial.entra_configured());

    let mut complete = base_config();
    complete.azure_entra_tenant_id = "tenant-guid".to_string();
    complete.azure_entra_audience = "api://sagepas".to_string();
    assert!(complete.entra_configured());
}

#[test]
fn defaults_describe_production() {
    let cfg = base_config();
    assert!(cfg.is_production());
    assert_eq!(cfg.port, 3000);
    assert_eq!(cfg.search_endpoint, "https://sageinsure-search.search.windows.net");
    let mut blank = base_config();
    blank.azure_entra_tenant_id = "   ".to_string();
    blank.azure_entra_audience = "aud".to_string();
    assert!(!blank.entra_configured());
}

#[test]
fn blob_paths_are_taken_from_their_urls() {
    assert_eq!(
        blob_path_from_url(
            "https://acct.blob.core.windows.net/policy-documents/POL-2026-000001.pdf",
            "acct",
            "policy-documents"
        ),
        "POL-2026-000001.pdf"
    );
    assert_eq!(blob_path_from_url("elsewhere/x.pdf", "acct", "c"), "elsewhere/x.pdf");
}

#[test]
fn storage_error_codes_are_recognised_in_order() {
    assert_eq!(
        azure_error_code_hint("HTTP 404 BlobNotFound ... ResourceNotFound").as_deref(),
        Some("ResourceNotFound")
    );
    assert_eq!(azure_error_code_hint("connection reset"), None);
}

#[test]
fn test_lock_key_format() {
    let policy_id = PolicyId::parse("11111111-1111-4111-8111-111111111111").expect("valid uuid");
    assert_eq!(lock_key(policy_id), "policy_lock:11111111-1111-4111-8111-111111111111");
}

#[test]
fn lock_refusals_are_answered_by_cause() {
    let held = lock_rejection(&PolicyLockError::AlreadyLocked);
    assert_eq!(held.status, 423);
    assert_eq!(held.error, "policy locked");
    assert_eq!(held.retry_after_secs, Some(5));
    let failed = lock_rejection(&PolicyLockError::RedisError("down".to_string()));
    assert_eq!(failed.status, 500);
    assert_eq!(failed.error, "redis error: down");
    assert!(!locking_enabled("  "));
    assert!(locking_enabled("redis://localhost"));
    assert_eq!(policy_id_from_field(None).unwrap_err().error, "missing policy_id");
    assert_eq!(policy_id_from_field(Some("nope")).unwrap_err().error, "invalid policy_id");
}

#[test]
fn search_urls_drop_trailing_slashes_of_the_endpoint() {
    let endpoint = sagepas::search::search_endpoint("https://kb.search.windows.net//");
    assert_eq!(endpoint, "https://kb.search.windows.net");
    assert_eq!(
        sagepas::search::search_url(&endpoint, "insurance-auto-kb"),
        "https://kb.search.windows.net/indexes/insurance-auto-kb/docs/search?api-version=2023-11-01"
    );
}

#[test]
fn category_filters_double_quotes_and_skip_blanks() {
    assert_eq!(category_filter(None), None);
    assert_eq!(category_filter(Some("  ")), None);
    assert_eq!(category_filter(Some("motor")), Some("category eq 'motor'".to_string()));
    assert_eq!(
        category_filter(Some("driver's guide")),
        Some("category eq 'driver''s guide'".to_string())
    );
}

#[test]
fn entra_issuers_follow_the_tenant_unless_overridden() {
    let tenant = "11111111-1111-1111-1111-111111111111";
    let e = entra_endpoints(tenant, None);
    assert_eq!(
        e.issuer_v2,
        "https://login.microsoftonline.com/11111111-1111-1111-1111-111111111111/v2.0"
    );
    assert_eq!(e.issuer_v1, "https://sts.windows.net/11111111-1111-1111-1111-111111111111/");
    assert_eq!(
        e.discovery_url,
        "https://login.microsoftonline.com/11111111-1111-1111-1111-111111111111/v2.0/.well-known/openid-configuration"
    );
    let blank = entra_endpoints(tenant, Some(" ".to_string()));
    assert_eq!(blank.issuer_v2, e.issuer_v2);
    let custom = entra_endpoints(tenant, Some("https://issuer.example".to_string()));
    assert_eq!(custom.issuer_v2, "https://issuer.example");
    assert!(jwks_cache_fresh(86_399_999_999_999));
    assert!(!jwks_cache_fresh(86_400_000_000_000));
}

#[test]
fn responses_go_to_the_named_or_configured_deployment() {
    assert_eq!(sagepas::openai::deployment_name("  ", "gpt-4.1"), "gpt-4.1");
    assert_eq!(sagepas::openai::deployment_name("o3", "gpt-4.1"), "o3");
    assert_eq!(
        sagepas::openai::responses_url("https://ai.example.com/"),
        "https://ai.example.com/openai/v1/responses"
    );
}

#[test]
fn fresh_identifiers_are_version_4_uuids() {
    let ids = [
        sagepas::ids::PolicyId::new().0,
        sagepas::ids::UserId::new().0,
        sagepas::ids::CustomerId::new().0,
        sagepas::ids::QuoteId::new().0,
        sagepas::ids::AgentId::new().0,
        sagepas::ids::ProductId::new().0,
    ];
    for id in ids {
        assert_eq!((id >> 76) & 0xF, 4);
        assert_eq!((id >> 62) & 0x3, 2);
        assert_eq!(sagepas::ids::uuid_string(id).chars().nth(14), Some('4'));
    }
}

fn part(kind: Option<&str>, text: Option<&str>) -> sagepas::openai::OutputContent {
    sagepas::openai::OutputContent { kind: kind.map(str::to_string), text: text.map(str::to_string) }
}

#[test]
fn the_answer_is_the_first_text_of_the_first_message() {
    let items = vec![
        OutputItem { kind: Some("reasoning".to_string()), content: None },
        OutputItem {
            kind: Some("message".to_string()),
            content: Some(vec![part(Some("refusal"), Some("no")), part(Some("output_text"), Some("{\"a\":1}"))]),
        },
        OutputItem {
            kind: Some("message".to_string()),
            content: Some(vec![part(Some("output_text"), Some("later"))]),
        },
    ];
    assert_eq!(response_output_text(&items), Some("{\"a\":1}".to_string()));

    // only the first message item is read
    let items = vec![
        OutputItem { kind: Some("message".to_string()), content: Some(vec![part(Some("refusal"), Some("no"))]) },
        OutputItem {
            kind: Some("message".to_string()),
            content: Some(vec![part(Some("output_text"), Some("later"))]),
        },
    ];
    assert_eq!(response_output_text(&items), None);
    assert_eq!(response_output_text(&Vec::new()), None);
    let items = vec![OutputItem {
        kind: Some("message".to_string()),
        content: Some(vec![part(Some("output_text"), None)]),
    }];
    assert_eq!(response_output_text(&items), None);
}

#[test]
fn requests_name_the_deployment_and_the_limit() {
    let r = responses_request("https://ai.example.com//", "gpt-4.1", " ", Some(2048));
    assert_eq!(r.url, "https://ai.example.com/openai/v1/responses");
    assert_eq!(r.model, "gpt-4.1");
    assert_eq!(r.max_output_tokens, Some(2048));
    let r = responses_request("https://ai.example.com", "gpt-4.1", "o3", None);
    assert_eq!(r.model, "o3");
    assert_eq!(r.max_output_tokens, None);
}

#[test]
fn a_service_error_wins_over_any_answer() {
    let items = vec![OutputItem {
        kind: Some("message".to_string()),
        content: Some(vec![part(Some("output_text"), Some("hi"))]),
    }];
    assert_eq!(
        read_reply(Some("{\"code\":\"quota\"}".to_string()), &items),
        ReplyOutcome::ServiceError("{\"code\":\"quota\"}".to_string())
    );
    assert_eq!(read_reply(None, &items), ReplyOutcome::Answer("hi".to_string()));
    assert_eq!(read_reply(None, &Vec::new()), ReplyOutcome::NoOutputText);
}
