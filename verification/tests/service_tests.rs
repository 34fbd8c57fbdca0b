use rta_server::config::{IdpConfig, IdpProviders};
use rta_server::context::{AuthorizationContext, AuthzError, ContextManager};
use rta_server::crypto::{generate_key_material, Signer};
use rta_server::enforce::{enforce, EnforceOutcome};
use rta_server::events::{handle_revoke_token, repository_key, DomainEvent, RevokeTokenCommand};
use rta_server::exchange::{
    check_request_size, complete_exchange, exchange_response_json, exchange_with_key_material,
    introspection_succeeded, parse_exchange_request, plan_exchange, resolve_provider,
    ExchangeError, TokenExchangeRequest,
};
use rta_server::queries::query_token_details;
use rta_server::hexcode::session_id_hex;
use rta_server::revocation::RevocationSet;
use rta_server::token::{RTAToken, ValidateError};

use base64::Engine;

const NOW: u64 = 1_700_000_000;
const MAX_AGE: u64 = 3600;
const GRANT: &str = "urn:ietf:params:oauth:grant-type:rta_token_exchange";

fn test_signer() -> Signer {
    let pkcs8 = generate_key_material().expect("key generation");
    Signer::from_pkcs8(pkcs8).expect("key material accepted")
}

fn sample_session_id() -> Vec<u8> {
    (100u8..116u8).collect()
}

fn registry() -> IdpProviders {
    let descriptor = |name: &str| IdpConfig {
        introspection_url: format!("https://{}.example/introspect", name),
        client_id: format!("{}-client", name),
        client_secret: "client-secret-value".to_string(),
    };
    IdpProviders {
        default: "azure".to_string(),
        azure: descriptor("azure"),
        okta: descriptor("okta"),
        auth0: descriptor("auth0"),
    }
}

fn request(grant: &str, provider: Option<&str>) -> TokenExchangeRequest {
    TokenExchangeRequest {
        grant_type: grant.to_string(),
        oauth_token: "abc".to_string(),
        agent_id: "agent-1".to_string(),
        provider: provider.map(|p| p.to_string()),
    }
}

#[test]
fn resolve_known_providers() {
    let reg = registry();
    let azure = resolve_provider(Some(&"azure".to_string()), &reg).expect("azure resolves");
    assert_eq!(azure.introspection_url, "https://azure.example/introspect");
    let okta = resolve_provider(Some(&"okta".to_string()), &reg).expect("okta resolves");
    assert_eq!(okta.client_id, "okta-client");
    let auth0 = resolve_provider(Some(&"auth0".to_string()), &reg).expect("auth0 resolves");
    assert_eq!(auth0.client_id, "auth0-client");
}

#[test]
fn provider_keys_match_without_regard_to_case() {
    let reg = registry();
    let upper = resolve_provider(Some(&"AZURE".to_string()), &reg).expect("AZURE resolves");
    assert_eq!(upper.introspection_url, "https://azure.example/introspect");
    let mixed = resolve_provider(Some(&"Okta".to_string()), &reg).expect("Okta resolves");
    assert_eq!(mixed.client_id, "okta-client");
    let mut shouting = registry();
    shouting.default = "AUTH0".to_string();
    let via_default = resolve_provider(None, &shouting).expect("upper-case default resolves");
    assert_eq!(via_default.client_id, "auth0-client");
}

#[test]
fn introspection_success_is_the_2xx_range() {
    assert!(!introspection_succeeded(199));
    assert!(introspection_succeeded(200));
    assert!(introspection_succeeded(299));
    assert!(!introspection_succeeded(300));
    assert!(!introspection_succeeded(401));
}

#[test]
fn token_details_query_text() {
    assert_eq!(query_token_details("00ff"), "Token details for session_id: 00ff");
}

#[test]
fn unknown_provider_is_rejected() {
    let reg = registry();
    match resolve_provider(Some(&"saml".to_string()), &reg) {
        Err(ExchangeError::UnknownProvider) => {},
        _ => panic!("expected UnknownProvider"),
    }
}

#[test]
fn missing_provider_uses_default() {
    let reg = registry();
    let resolved = resolve_provider(None, &reg).expect("default resolves");
    assert_eq!(resolved.introspection_url, "https://azure.example/introspect");
}

#[test]
fn wrong_grant_type_is_rejected_before_provider_resolution() {
    let reg = registry();
    match plan_exchange(&request("client_credentials", Some("saml")), &reg) {
        Err(ExchangeError::UnsupportedGrantType) => {},
        _ => panic!("expected UnsupportedGrantType"),
    }
}

#[test]
fn plan_exchange_happy_path() {
    let reg = registry();
    let resolved = plan_exchange(&request(GRANT, None), &reg).expect("plan succeeds");
    assert_eq!(resolved.introspection_url, "https://azure.example/introspect");
    match plan_exchange(&request(GRANT, Some("saml")), &reg) {
        Err(ExchangeError::UnknownProvider) => {},
        _ => panic!("expected UnknownProvider"),
    }
}

#[test]
fn parse_exchange_request_happy_path() {
    let body = format!(
        "{{\"grant_type\":\"{}\",\"oauth_token\":\"abc\",\"agent_id\":\"a1\",\"provider\":\"okta\"}}",
        GRANT
    );
    let req = parse_exchange_request(body.as_bytes()).expect("parses");
    assert_eq!(req.grant_type, GRANT);
    assert_eq!(req.oauth_token, "abc");
    assert_eq!(req.agent_id, "a1");
    assert_eq!(req.provider, Some("okta".to_string()));
}

#[test]
fn parse_exchange_request_null_or_absent_provider() {
    let with_null = format!(
        "{{\"grant_type\":\"{}\",\"oauth_token\":\"abc\",\"agent_id\":\"a1\",\"provider\":null}}",
        GRANT
    );
    let req = parse_exchange_request(with_null.as_bytes()).expect("parses");
    assert_eq!(req.provider, None);
    let absent = format!(
        "{{\"grant_type\":\"{}\",\"oauth_token\":\"abc\",\"agent_id\":\"a1\"}}",
        GRANT
    );
    let req = parse_exchange_request(absent.as_bytes()).expect("parses");
    assert_eq!(req.provider, None);
}

#[test]
fn parse_exchange_request_bad_inputs() {
    for body in [
        "not json".to_string(),
        "{\"oauth_token\":\"abc\",\"agent_id\":\"a1\"}".to_string(),
        format!("{{\"grant_type\":\"{}\",\"oauth_token\":7,\"agent_id\":\"a1\"}}", GRANT),
        format!("{{\"grant_type\":\"{}\",\"oauth_token\":\"abc\",\"agent_id\":\"a1\",\"provider\":5}}", GRANT),
    ] {
        match parse_exchange_request(body.as_bytes()) {
            Err(ExchangeError::BadRequest) => {},
            _ => panic!("expected BadRequest for {}", body),
        }
    }
}

#[test]
fn request_size_bound() {
    assert!(check_request_size(4096).is_ok());
    match check_request_size(4097) {
        Err(ExchangeError::RequestTooLarge) => {},
        _ => panic!("expected RequestTooLarge"),
    }
}

#[test]
fn failed_introspection_issues_no_token() {
    let signer = test_signer();
    match complete_exchange(false, &signer, sample_session_id(), b"ctx", NOW) {
        Err(ExchangeError::IntrospectionFailed) => {},
        _ => panic!("expected IntrospectionFailed"),
    }
    match exchange_with_key_material(false, generate_key_material().unwrap(), b"ctx", NOW) {
        Err(ExchangeError::IntrospectionFailed) => {},
        _ => panic!("expected IntrospectionFailed"),
    }
}

#[test]
fn successful_exchange_issues_token_and_event() {
    let signer = test_signer();
    let (token, event) = complete_exchange(true, &signer, sample_session_id(), b"ctx", NOW)
        .expect("exchange succeeds");
    assert_eq!(token.session_id, sample_session_id());
    match event {
        DomainEvent::TokenIssued { session_id } => {
            assert_eq!(session_id, session_id_hex(&sample_session_id()));
        },
        _ => panic!("expected TokenIssued"),
    }
    assert_eq!(token.validate(signer.public_key(), b"ctx", MAX_AGE, NOW), Ok(()));
}

#[test]
fn exchange_response_wraps_base64_of_encoded_token() {
    let bytes: Vec<u8> = vec![0, 1, 2, 250, 251, 252];
    let body = exchange_response_json(&bytes);
    let expected_b64 = base64::engine::general_purpose::STANDARD.encode(&bytes);
    assert_eq!(body, format!("{{\"rtatoken\":\"{}\"}}", expected_b64));
    assert_eq!(body, "{\"rtatoken\":\"AAEC+vv8\"}");
}

#[test]
fn exchanged_token_round_trips_through_response() {
    let (token, _event) =
        exchange_with_key_material(true, generate_key_material().unwrap(), b"ctx", NOW)
            .expect("exchange succeeds");
    let body = exchange_response_json(&token.serialize());
    let json: serde_json::Value = serde_json::from_str(&body).expect("response is JSON");
    let b64 = json.get("rtatoken").and_then(|v| v.as_str()).expect("rtatoken member");
    let bytes = base64::engine::general_purpose::STANDARD.decode(b64).expect("valid base64");
    assert_eq!(&bytes[0..8], b"RTA1TOKN");
}

#[test]
fn context_rule_allows_and_denies() {
    let ctx = AuthorizationContext {
        user_id: "u1".to_string(),
        allowed_resources: vec!["document-123".to_string()],
        risk_score: 10,
    };
    assert!(ctx.is_action_allowed("document-123"));
    assert!(!ctx.is_action_allowed("document-999"));
    let risky = AuthorizationContext { risk_score: 50, ..ctx };
    assert!(!risky.is_action_allowed("document-123"));
}

#[test]
fn context_manager_validates_actions() {
    let mut manager = ContextManager::new();
    let sid = "ab".repeat(16);
    assert_eq!(manager.validate_action(&sid, "document-123"), Err(AuthzError::Unauthorized));
    manager.insert(
        sid.clone(),
        AuthorizationContext {
            user_id: "u1".to_string(),
            allowed_resources: vec!["document-123".to_string()],
            risk_score: 10,
        },
    );
    assert_eq!(manager.validate_action(&sid, "document-123"), Ok(()));
    assert_eq!(manager.validate_action(&sid, "document-999"), Err(AuthzError::Unauthorized));
}

#[test]
fn revocation_set_grows_and_answers() {
    let mut revoked = RevocationSet::new();
    let sid = "cd".repeat(16);
    assert!(!revoked.is_revoked(&sid));
    revoked.mark_revoked(sid.clone());
    assert!(revoked.is_revoked(&sid));
    revoked.mark_revoked(sid.clone());
    assert!(revoked.is_revoked(&sid));
    assert!(!revoked.is_revoked(&"00".repeat(16)));
}

#[test]
fn revoke_command_raises_event() {
    let event = handle_revoke_token(RevokeTokenCommand { session_id: "feed".to_string() });
    match event {
        DomainEvent::TokenRevoked { session_id } => assert_eq!(session_id, "feed"),
        _ => panic!("expected TokenRevoked"),
    }
}

#[test]
fn repository_key_shape() {
    assert_eq!(repository_key("00ff"), "rtatoken:00ff");
}

fn stores_with_context(sid_hex: &str) -> (RevocationSet, ContextManager) {
    let mut manager = ContextManager::new();
    manager.insert(
        sid_hex.to_string(),
        AuthorizationContext {
            user_id: "u1".to_string(),
            allowed_resources: vec!["document-123".to_string()],
            risk_score: 10,
        },
    );
    (RevocationSet::new(), manager)
}

#[test]
fn enforcement_happy_path_grants() {
    let signer = test_signer();
    let token = RTAToken::issue(&signer, sample_session_id(), b"ctx", NOW);
    let sid_hex = session_id_hex(&token.session_id);
    let (revoked, contexts) = stores_with_context(&sid_hex);
    let outcome = enforce(
        &token.serialize(),
        &revoked,
        &contexts,
        signer.public_key(),
        b"ctx",
        MAX_AGE,
        NOW,
        "document-123",
    );
    assert_eq!(outcome, EnforceOutcome::Granted);
}

#[test]
fn enforcement_revocation_takes_precedence() {
    let signer = test_signer();
    let token = RTAToken::issue(&signer, sample_session_id(), b"ctx", NOW);
    let sid_hex = session_id_hex(&token.session_id);
    let (mut revoked, contexts) = stores_with_context(&sid_hex);
    revoked.mark_revoked(sid_hex);
    // Even with a valid signature, matching context and a known session,
    // a revoked session is answered Revoked.
    let outcome = enforce(
        &token.serialize(),
        &revoked,
        &contexts,
        signer.public_key(),
        b"ctx",
        MAX_AGE,
        NOW,
        "document-123",
    );
    assert_eq!(outcome, EnforceOutcome::Revoked);
}

#[test]
fn enforcement_context_mismatch() {
    let signer = test_signer();
    let token = RTAToken::issue(&signer, sample_session_id(), b"introspection_based_context", NOW);
    let sid_hex = session_id_hex(&token.session_id);
    let (revoked, contexts) = stores_with_context(&sid_hex);
    let outcome = enforce(
        &token.serialize(),
        &revoked,
        &contexts,
        signer.public_key(),
        b"other",
        MAX_AGE,
        NOW,
        "document-123",
    );
    assert_eq!(outcome, EnforceOutcome::Invalid(ValidateError::ContextMismatch));
}

#[test]
fn enforcement_expired_token() {
    let signer = test_signer();
    let token = RTAToken::issue(&signer, sample_session_id(), b"ctx", NOW);
    let sid_hex = session_id_hex(&token.session_id);
    let (revoked, contexts) = stores_with_context(&sid_hex);
    let outcome = enforce(
        &token.serialize(),
        &revoked,
        &contexts,
        signer.public_key(),
        b"ctx",
        MAX_AGE,
        NOW + MAX_AGE + 1,
        "document-123",
    );
    assert_eq!(outcome, EnforceOutcome::Invalid(ValidateError::Expired));
}

#[test]
fn enforcement_unknown_session_is_unauthorized() {
    let signer = test_signer();
    let token = RTAToken::issue(&signer, sample_session_id(), b"ctx", NOW);
    let revoked = RevocationSet::new();
    let contexts = ContextManager::new();
    let outcome = enforce(
        &token.serialize(),
        &revoked,
        &contexts,
        signer.public_key(),
        b"ctx",
        MAX_AGE,
        NOW,
        "document-123",
    );
    assert_eq!(outcome, EnforceOutcome::Unauthorized);
}

#[test]
fn enforcement_rejects_garbage_bytes() {
    let revoked = RevocationSet::new();
    let contexts = ContextManager::new();
    let outcome = enforce(
        &[1, 2, 3],
        &revoked,
        &contexts,
        &vec![0u8; 32],
        b"ctx",
        MAX_AGE,
        NOW,
        "document-123",
    );
    match outcome {
        EnforceOutcome::Malformed(_) => {},
        _ => panic!("expected Malformed"),
    }
}
