use oauth_provider::authorize::{
    authorization_code_flow, contains_text, scopes_allowed, validate_authorize_request,
    AuthorizeRejection, PageError,
};
use oauth_provider::errors::ProtocolError;
use oauth_provider::model::{AuthorizeRequestData, Client, LoginRequestData};

fn params(pairs: &[(&str, &str)]) -> Vec<(String, String)> {
    pairs.iter().map(|(k, v)| (k.to_string(), v.to_string())).collect()
}

fn client() -> Client {
    Client {
        id: 42,
        name: "Example App".to_string(),
        allowed_scopes: vec!["read".to_string(), "write".to_string(), "admin".to_string()],
        redirect_uris: vec!["https://app.example/cb".to_string()],
        secret: "s3cret".to_string(),
    }
}

fn request(scope: &str, redirect_uri: &str) -> AuthorizeRequestData {
    AuthorizeRequestData {
        client_id: "42".to_string(),
        redirect_uri: redirect_uri.to_string(),
        scope: scope.to_string(),
        state: Some("xyz".to_string()),
        response_type: Some("code".to_string()),
    }
}

#[test]
fn new_reads_all_fields() {
    let p = params(&[
        ("client_id", "42"),
        ("redirect_uri", "https://app.example/cb"),
        ("scope", "read write"),
        ("state", "xyz"),
        ("response_type", "code"),
    ]);
    assert_eq!(AuthorizeRequestData::new(&p), Some(request("read write", "https://app.example/cb")));
}

#[test]
fn new_needs_required_fields() {
    let p = params(&[("client_id", "42"), ("scope", "read")]);
    assert_eq!(AuthorizeRequestData::new(&p), None);
}

#[test]
fn new_leaves_optional_fields_absent() {
    let p = params(&[("client_id", "7"), ("redirect_uri", "https://a.b/c"), ("scope", "read")]);
    let r = AuthorizeRequestData::new(&p).unwrap();
    assert_eq!(r.state, None);
    assert_eq!(r.response_type, None);
}

#[test]
fn later_parameter_wins() {
    let p = params(&[("client_id", "1"), ("redirect_uri", "https://a.b/c"), ("scope", "x"), ("client_id", "2")]);
    assert_eq!(AuthorizeRequestData::new(&p).unwrap().client_id, "2");
}

#[test]
fn login_data_from_form() {
    let p = params(&[("request_id", "1-a"), ("email", "u@example.org"), ("password", "pw")]);
    let d = LoginRequestData::new(&p).unwrap();
    assert_eq!(d.request_id, "1-a");
    assert_eq!(d.email, "u@example.org");
    assert_eq!(d.password, "pw");
    assert_eq!(LoginRequestData::new(&params(&[("email", "u"), ("password", "p")])), None);
}

#[test]
fn validation_accepts_well_formed_request() {
    let p = params(&[
        ("client_id", "42"),
        ("redirect_uri", "https://app.example/cb"),
        ("scope", "read write"),
        ("state", "xyz"),
        ("response_type", "code"),
    ]);
    assert_eq!(validate_authorize_request(&p), Ok(request("read write", "https://app.example/cb")));
}

#[test]
fn validation_missing_parameters_page() {
    let p = params(&[("client_id", "42")]);
    assert_eq!(validate_authorize_request(&p), Err(AuthorizeRejection::Page(PageError::MissingParameters)));
    assert_eq!(PageError::MissingParameters.message(), "Missing required parameters");
}

#[test]
fn validation_invalid_redirect_uri_page() {
    let p = params(&[("client_id", "42"), ("redirect_uri", "not a url"), ("scope", "read")]);
    assert_eq!(validate_authorize_request(&p), Err(AuthorizeRejection::Page(PageError::InvalidRedirectUri)));
    assert_eq!(PageError::InvalidRedirectUri.status(), 400);
}

#[test]
fn validation_rejects_non_numeric_client() {
    let p = params(&[("client_id", "abc"), ("redirect_uri", "https://a.b/c"), ("scope", "read")]);
    assert_eq!(
        validate_authorize_request(&p),
        Err(AuthorizeRejection::Redirect(
            ProtocolError::InvalidClient,
            "https://a.b/c?error=invalid_client&error_description=The%20client_id%20parameter%20is%20missing".to_string()
        ))
    );
}

#[test]
fn validation_rejects_empty_scope() {
    let p = params(&[("client_id", "42"), ("redirect_uri", "https://a.b/c"), ("scope", ""), ("state", "s1")]);
    assert_eq!(
        validate_authorize_request(&p),
        Err(AuthorizeRejection::Redirect(
            ProtocolError::MissingScope,
            "https://a.b/c?error=invalid_scope&error_description=The%20scope%20parameter%20is%20missing&state=s1".to_string()
        ))
    );
}

#[test]
fn validation_rejects_blank_scope() {
    let p = params(&[("client_id", "42"), ("redirect_uri", "https://a.b/c"), ("scope", "  \t")]);
    match validate_authorize_request(&p) {
        Err(AuthorizeRejection::Redirect(e, _)) => assert_eq!(e, ProtocolError::MissingScope),
        other => panic!("unexpected {:?}", other),
    }
}

#[test]
fn validation_rejects_other_response_type() {
    let p = params(&[("client_id", "42"), ("redirect_uri", "https://a.b/c"), ("scope", "read"), ("response_type", "token")]);
    match validate_authorize_request(&p) {
        Err(AuthorizeRejection::Redirect(e, loc)) => {
            assert_eq!(e, ProtocolError::UnsupportedResponseType);
            assert!(loc.starts_with("https://a.b/c?error=unsupported_response_type&"));
        }
        other => panic!("unexpected {:?}", other),
    }
}

#[test]
fn client_admits_registered_request() {
    let c = client();
    assert_eq!(authorization_code_flow(&request("read write", "https://app.example/cb"), true, Some(&c)), Ok(()));
}

#[test]
fn unregistered_redirect_uri_is_rejected() {
    let c = client();
    let r = request("read", "https://evil.example/cb");
    assert_eq!(
        authorization_code_flow(&r, true, Some(&c)),
        Err(AuthorizeRejection::Redirect(
            ProtocolError::InvalidRedirectUri,
            "https://evil.example/cb?error=invalid_redirect_uri&error_description=The%20redirect%20uri%20parameter%20is%20invalid&state=xyz".to_string()
        ))
    );
}

#[test]
fn unknown_scope_is_rejected() {
    let c = client();
    let r = request("read delete", "https://app.example/cb");
    match authorization_code_flow(&r, true, Some(&c)) {
        Err(AuthorizeRejection::Redirect(e, loc)) => {
            assert_eq!(e, ProtocolError::InvalidScope);
            assert!(loc.contains("error=invalid_scope"));
            assert!(loc.contains("The%20scope%20parameter%20contains%20unknown%20scopes"));
        }
        other => panic!("unexpected {:?}", other),
    }
}

#[test]
fn unknown_client_is_rejected() {
    let r = request("read", "https://app.example/cb");
    match authorization_code_flow(&r, false, None) {
        Err(AuthorizeRejection::Redirect(e, _)) => assert_eq!(e, ProtocolError::InvalidClient),
        other => panic!("unexpected {:?}", other),
    }
}

#[test]
fn missing_client_record_is_server_error() {
    let r = request("read", "https://app.example/cb");
    match authorization_code_flow(&r, true, None) {
        Err(AuthorizeRejection::Redirect(e, _)) => assert_eq!(e, ProtocolError::ServerError),
        other => panic!("unexpected {:?}", other),
    }
}

#[test]
fn scope_tokens_split_on_single_spaces() {
    let allowed = vec!["read".to_string(), "write".to_string()];
    assert!(scopes_allowed("read write", &allowed));
    assert!(scopes_allowed("write", &allowed));
    assert!(!scopes_allowed("read  write", &allowed));
    assert!(!scopes_allowed("read ", &allowed));
    assert!(!scopes_allowed("", &allowed));
    assert!(!scopes_allowed("read admin", &allowed));
}

#[test]
fn contains_text_finds_equal_strings() {
    let v = vec!["a".to_string(), "bc".to_string()];
    assert!(contains_text(&v, &"bc".to_string()));
    assert!(!contains_text(&v, &"b".to_string()));
    assert!(!contains_text(&Vec::new(), &"a".to_string()));
}
