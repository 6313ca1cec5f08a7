use oauth_provider::authorize::{authorization_code_flow, validate_authorize_request};
use oauth_provider::login::{
    generate_code, generate_request_id, login_decision, request_id_from, CodeGrant, LoginOutcome,
};
use oauth_provider::model::{AuthorizeRequestData, Client, TokenRequest, User};
use oauth_provider::token::{build_claims, exchange_token, TokenError};

fn client() -> Client {
    Client {
        id: 42,
        name: "Example App".to_string(),
        allowed_scopes: vec!["read".to_string(), "write".to_string(), "admin".to_string()],
        redirect_uris: vec!["https://app.example/cb".to_string()],
        secret: "s3cret".to_string(),
    }
}

fn token_request(secret: &str, code: &str) -> TokenRequest {
    TokenRequest {
        client_id: "42".to_string(),
        client_secret: secret.to_string(),
        auth_code: code.to_string(),
    }
}

fn now() -> u64 {
    std::time::SystemTime::now().duration_since(std::time::UNIX_EPOCH).unwrap().as_secs()
}

fn decode_claims(token: &str, key: &str) -> serde_json::Value {
    let mut validation = jsonwebtoken::Validation::new(jsonwebtoken::Algorithm::HS256);
    validation.validate_exp = false;
    jsonwebtoken::decode::<serde_json::Value>(
        token,
        &jsonwebtoken::DecodingKey::from_secret(key.as_bytes()),
        &validation,
    )
    .unwrap()
    .claims
}

fn pending() -> AuthorizeRequestData {
    AuthorizeRequestData {
        client_id: "42".to_string(),
        redirect_uri: "https://app.example/cb".to_string(),
        scope: "read write".to_string(),
        state: Some("xyz".to_string()),
        response_type: Some("code".to_string()),
    }
}

fn user() -> User {
    User { id: 7, email: "u@example.org".to_string(), password: "pw".to_string() }
}

#[test]
fn valid_exchange_returns_decodable_token() {
    let c = client();
    let key = "signing-key".to_string();
    let t = 1_700_000_000u64;
    let r = exchange_token(
        &token_request("s3cret", "abc"),
        true,
        Some(&c),
        Some("7".to_string()),
        Some("read write".to_string()),
        t,
        Some(&key),
    )
    .unwrap();
    assert_eq!(r.token_type, "Bearer");
    assert_eq!(r.expires_in, 3600);
    let claims = decode_claims(&r.access_token, "signing-key");
    assert_eq!(claims["sub"], "7");
    assert_eq!(claims["client_id"], "42");
    assert_eq!(claims["scopes"], "read write");
    assert_eq!(claims["exp"], t + 3600);
}

#[test]
fn wrong_secret_is_unauthorized() {
    let c = client();
    let key = "k".to_string();
    let r = exchange_token(&token_request("nope", "abc"), true, Some(&c), Some("7".to_string()), Some("read".to_string()), 10, Some(&key));
    assert_eq!(r, Err(TokenError::InvalidSecret));
    assert_eq!(TokenError::InvalidSecret.status(), 401);
    assert_eq!(TokenError::InvalidSecret.message(), "Invalid client_secret");
}

#[test]
fn unknown_client_is_bad_request() {
    let key = "k".to_string();
    let r = exchange_token(&token_request("s3cret", "abc"), false, None, None, None, 10, Some(&key));
    assert_eq!(r, Err(TokenError::UnknownClient));
    assert_eq!(TokenError::UnknownClient.status(), 400);
}

#[test]
fn missing_client_record_is_bad_request() {
    let key = "k".to_string();
    let r = exchange_token(&token_request("s3cret", "abc"), true, None, None, None, 10, Some(&key));
    assert_eq!(r, Err(TokenError::ClientDataNotFound));
    assert_eq!(TokenError::ClientDataNotFound.status(), 400);
}

#[test]
fn unknown_code_is_unauthorized() {
    let c = client();
    let key = "k".to_string();
    let req = token_request("s3cret", "zzz");
    assert_eq!(exchange_token(&req, true, Some(&c), None, None, 10, Some(&key)), Err(TokenError::UnknownCode));
    assert_eq!(
        exchange_token(&req, true, Some(&c), Some("7".to_string()), None, 10, Some(&key)),
        Err(TokenError::UnknownScopes)
    );
    assert_eq!(
        exchange_token(&req, true, Some(&c), None, Some("read".to_string()), 10, Some(&key)),
        Err(TokenError::UnknownUserId)
    );
    assert_eq!(TokenError::UnknownCode.status(), 401);
    assert_eq!(TokenError::UnknownScopes.status(), 401);
    assert_eq!(TokenError::UnknownUserId.status(), 401);
}

#[test]
fn missing_signing_key_is_server_error() {
    let c = client();
    let r = exchange_token(&token_request("s3cret", "abc"), true, Some(&c), Some("7".to_string()), Some("read".to_string()), 10, None);
    assert_eq!(r, Err(TokenError::MissingSigningKey));
    assert_eq!(TokenError::MissingSigningKey.status(), 500);
}

#[test]
fn claims_expire_an_hour_after_issuance() {
    let c = build_claims(&"7".to_string(), &"42".to_string(), &"read".to_string(), 100);
    assert_eq!(c.exp, 3700);
    assert_eq!(c.sub, "7");
}

#[test]
fn request_id_is_decimal_dash_hex() {
    assert_eq!(request_id_from(1700000000, 255), "1700000000-ff");
    assert_eq!(request_id_from(0, 0), "0-0");
    assert_eq!(request_id_from(12, u64::MAX), "12-ffffffffffffffff");
}

#[test]
fn generated_request_id_has_the_form() {
    let id = generate_request_id();
    let (t, h) = id.split_once('-').unwrap();
    assert!(!t.is_empty() && t.chars().all(|c| c.is_ascii_digit()));
    assert!(!h.is_empty() && h.chars().all(|c| c.is_ascii_hexdigit() && !c.is_ascii_uppercase()));
}

#[test]
fn generated_code_is_alphanumeric() {
    let code = generate_code();
    assert_eq!(code.len(), 32);
    assert!(code.chars().all(|c| c.is_ascii_alphanumeric()));
}

#[test]
fn login_without_pending_request_shows_error_page() {
    let u = user();
    assert_eq!(login_decision(None, Some(&u), &"c".to_string()), LoginOutcome::ErrorPage);
}

#[test]
fn login_with_bad_credentials_is_denied() {
    let p = pending();
    assert_eq!(
        login_decision(Some(&p), None, &"c".to_string()),
        LoginOutcome::Denied(
            "https://app.example/cb?error=access_denied&error_description=The%20authorization%20request%20has%20been%20denied&state=xyz".to_string()
        )
    );
}

#[test]
fn login_without_code_response_type_is_denied() {
    let mut p = pending();
    p.response_type = None;
    let u = user();
    assert!(matches!(login_decision(Some(&p), Some(&u), &"c".to_string()), LoginOutcome::Denied(_)));
}

#[test]
fn login_grants_code() {
    let p = pending();
    let u = user();
    assert_eq!(
        login_decision(Some(&p), Some(&u), &"abc".to_string()),
        LoginOutcome::Grant(CodeGrant {
            client_id: "42".to_string(),
            code: "abc".to_string(),
            user_id: "7".to_string(),
            scopes: "read write".to_string(),
            location: "https://app.example/cb?code=abc&state=xyz".to_string(),
        })
    );
}

#[test]
fn full_authorization_code_grant() {
    let c = client();
    let params: Vec<(String, String)> = vec![
        ("client_id", "42"),
        ("redirect_uri", "https://app.example/cb"),
        ("scope", "read write"),
        ("state", "xyz"),
        ("response_type", "code"),
    ]
    .into_iter()
    .map(|(k, v)| (k.to_string(), v.to_string()))
    .collect();
    let req = validate_authorize_request(&params).unwrap();
    assert_eq!(authorization_code_flow(&req, true, Some(&c)), Ok(()));
    let request_id = generate_request_id();
    let (t, h) = request_id.split_once('-').unwrap();
    assert!(t.chars().all(|c| c.is_ascii_digit()) && h.chars().all(|c| c.is_ascii_hexdigit()));

    let code = generate_code();
    let u = user();
    let grant = match login_decision(Some(&req), Some(&u), &code) {
        LoginOutcome::Grant(g) => g,
        other => panic!("unexpected {:?}", other),
    };
    assert_eq!(grant.location, format!("https://app.example/cb?code={}&state=xyz", code));
    assert_eq!(code.len(), 32);

    let key = "signing-key".to_string();
    let issued = now();
    let resp = exchange_token(
        &token_request("s3cret", &grant.code),
        true,
        Some(&c),
        Some(grant.user_id.clone()),
        Some(grant.scopes.clone()),
        issued,
        Some(&key),
    )
    .unwrap();
    let claims = decode_claims(&resp.access_token, "signing-key");
    assert_eq!(claims["sub"], "7");
    assert_eq!(claims["client_id"], "42");
    assert_eq!(claims["scopes"], "read write");
    assert_eq!(claims["exp"], issued + 3600);
}
