use tero_core::auth::{find_jwk, resolve_headers, token_kid, webhook_subject, AuthDecision, Claims, Jwk, Jwks};
use tero_core::error::ServerError;
use tero_core::integration::{IntegrationConfig, IntegrationName, IntegrationRegistry};
use tero_core::user::{Permission, SubjectId};

fn claims_with(permissions: Option<Vec<Permission>>) -> Claims {
    Claims {
        gty: None,
        aud: vec!["aud".to_string()],
        azp: String::new(),
        exp: 0,
        iat: 0,
        iss: String::new(),
        scope: String::new(),
        sub: "auth0|user".to_string(),
        permissions,
    }
}

#[test]
fn guest_header_wins_over_bearer() {
    let r = resolve_headers(
        Some("11111111-2222-3333-4444-555555555555".to_string()),
        Some("Bearer abc".to_string()),
    );
    match r {
        AuthDecision::Guest(g) => assert_eq!(g, "11111111-2222-3333-4444-555555555555"),
        _ => panic!("guest header must win"),
    }
}

#[test]
fn bearer_prefix_is_stripped() {
    let r = resolve_headers(None, Some("Bearer the.token.here".to_string()));
    match r {
        AuthDecision::Token(t) => assert_eq!(t, "the.token.here"),
        _ => panic!("expected a token"),
    }
}

#[test]
fn bearer_without_prefix_is_malformed() {
    assert!(matches!(
        resolve_headers(None, Some("the.token.here".to_string())),
        AuthDecision::MalformedBearer
    ));
}

#[test]
fn no_headers_is_denied() {
    assert!(matches!(resolve_headers(None, None), AuthDecision::Denied));
}

#[test]
fn missing_permission_reports_the_gap() {
    let claims = claims_with(Some(vec![Permission::WriteGame]));
    let missing = claims
        .missing_permission(&vec![Permission::ReadAdmin, Permission::WriteGame])
        .unwrap();
    assert_eq!(missing, vec![Permission::ReadAdmin]);
}

#[test]
fn missing_permission_is_none_when_all_held() {
    let claims = claims_with(Some(vec![
        Permission::ReadAdmin,
        Permission::WriteGame,
        Permission::WriteAdmin,
    ]));
    assert!(claims
        .missing_permission(&vec![Permission::ReadAdmin, Permission::WriteGame])
        .is_none());
}

#[test]
fn absent_permissions_field_grants_nothing() {
    let claims = claims_with(None);
    let missing = claims.missing_permission(&vec![Permission::WriteAdmin]).unwrap();
    assert_eq!(missing, vec![Permission::WriteAdmin]);
    assert!(claims.missing_permission(&vec![]).is_none());
}

#[test]
fn empty_claims_are_a_guest() {
    let claims = Claims::empty();
    assert_eq!(claims.auth0_id(), "guest");
    assert!(!claims.is_machine());
    assert!(claims.permissions.is_none());
}

#[test]
fn machine_claims_are_recognized() {
    let mut claims = claims_with(None);
    claims.gty = Some("client-credentials".to_string());
    assert!(claims.is_machine());
    claims.gty = Some("password".to_string());
    assert!(!claims.is_machine());
}

fn jwk(kid: &str) -> Jwk {
    Jwk {
        kid: kid.to_string(),
        n: "n".to_string(),
        e: "AQAB".to_string(),
        kty: "RSA".to_string(),
        alg: "RS256".to_string(),
        use_: "sig".to_string(),
    }
}

#[test]
fn find_jwk_picks_the_first_match() {
    let jwks = Jwks { keys: vec![jwk("one"), jwk("two"), jwk("two")] };
    assert_eq!(find_jwk(&jwks, "two"), Some(1));
    assert_eq!(find_jwk(&jwks, "one"), Some(0));
    assert_eq!(find_jwk(&jwks, "three"), None);
}

#[test]
fn webhook_requires_the_exact_key() {
    match webhook_subject(None, "hook-key-123") {
        Err(ServerError::Api(code, msg)) => {
            assert_eq!(code, 401);
            assert_eq!(msg, "Webhook key not present");
        },
        _ => panic!("a missing key must be refused"),
    }
    match webhook_subject(Some("wrong".to_string()), "hook-key-123") {
        Err(ServerError::Api(code, msg)) => {
            assert_eq!(code, 401);
            assert_eq!(msg, "Invalid webhook key");
        },
        _ => panic!("a wrong key must be refused"),
    }
    match webhook_subject(Some("hook-key-123".to_string()), "hook-key-123") {
        Ok(SubjectId::Integration(IntegrationName::Auth0)) => {},
        _ => panic!("the exact key must pass"),
    }
}

fn registry() -> IntegrationRegistry {
    IntegrationRegistry {
        entries: vec![
            IntegrationConfig { name: IntegrationName::Session, subject: "gs-service".to_string() },
            IntegrationConfig { name: IntegrationName::Auth0, subject: "idp".to_string() },
        ],
    }
}

#[test]
fn machine_subjects_resolve_through_the_registry() {
    let reg = registry();
    assert_eq!(
        IntegrationName::from_subject("gs-service@clients", &reg),
        Some(IntegrationName::Session)
    );
    assert_eq!(IntegrationName::from_subject("idp@clients", &reg), Some(IntegrationName::Auth0));
    assert_eq!(IntegrationName::from_subject("unknown@clients", &reg), None);
    assert_eq!(IntegrationName::from_subject("gs-service", &reg), None);
}

#[test]
fn integration_names_render() {
    assert_eq!(IntegrationName::Auth0.as_str(), "auth0");
    assert_eq!(IntegrationName::Session.as_str(), "game_session");
}

#[test]
fn the_token_key_id_is_read_from_the_header() {
    // Header {"alg":"RS256","kid":"key-one"}, base64url without padding.
    let token = "eyJhbGciOiJSUzI1NiIsImtpZCI6ImtleS1vbmUifQ.e30.sig";
    assert_eq!(token_kid(token), Some("key-one".to_string()));
    // Header {"alg":"RS256"}: no key-id.
    let token = "eyJhbGciOiJSUzI1NiJ9.e30.sig";
    assert_eq!(token_kid(token), None);
    // Not a token at all.
    assert_eq!(token_kid("garbage"), None);
}
