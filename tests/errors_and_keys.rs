use oauth_provider::directory::{client_exists_step, parse_client_id, resolve_step, ExistenceStep, ResolveStep};
use oauth_provider::errors::{
    database_error, error_redirect_uri, failed_authorization_error, invalid_client_error,
    invalid_redirect_uri_error, invalid_scope_error, missing_scope_error, unsupported_response_type_error,
    ProtocolError,
};
use oauth_provider::keys::{
    auth_scopes_key, auth_user_id_key, client_data_key, client_ids_key, prefixed_key, request_data_key,
};
use oauth_provider::model::Client;
use oauth_provider::authorize::is_client_id;
use oauth_provider::text::{decimal_text, hex_text, is_blank};

#[test]
fn error_redirect_encodes_description_and_appends_state() {
    let uri = "https://app.example/cb".to_string();
    let st = "xyz".to_string();
    assert_eq!(
        failed_authorization_error(&uri, Some(&st)),
        "https://app.example/cb?error=access_denied&error_description=The%20authorization%20request%20has%20been%20denied&state=xyz"
    );
    assert_eq!(
        database_error(&uri, None),
        "https://app.example/cb?error=server_error&error_description=A%20database%20error%20occurred"
    );
}

#[test]
fn each_error_has_its_code() {
    let uri = "https://a.b/c".to_string();
    assert!(unsupported_response_type_error(&uri, None).contains("error=unsupported_response_type&"));
    assert!(invalid_client_error(&uri, None).contains("error=invalid_client&"));
    assert!(missing_scope_error(&uri, None).contains("The%20scope%20parameter%20is%20missing"));
    assert!(invalid_scope_error(&uri, None).contains("The%20scope%20parameter%20contains%20unknown%20scopes"));
    assert!(invalid_redirect_uri_error(&uri, None).contains("error=invalid_redirect_uri&"));
    assert_eq!(ProtocolError::MissingScope.code(), ProtocolError::InvalidScope.code());
    assert_ne!(ProtocolError::MissingScope.description(), ProtocolError::InvalidScope.description());
}

#[test]
fn description_with_reserved_characters_is_encoded() {
    let uri = "https://a.b/c".to_string();
    let r = error_redirect_uri(&uri, ProtocolError::UnsupportedResponseType, None);
    assert_eq!(
        r,
        "https://a.b/c?error=unsupported_response_type&error_description=The%20response_type%20parameter%20is%20missing%20or%20unsupported"
    );
}

#[test]
fn cache_keys_carry_the_namespace() {
    assert_eq!(prefixed_key("default", "X"), "default:X");
    assert_eq!(client_ids_key("ns"), "ns:CLIENT_IDS");
    assert_eq!(client_data_key("ns", "42"), "ns:CLIENT_42_DATA");
    assert_eq!(request_data_key("ns", "17-ff"), "ns:REQUEST_ID_17-ff_REQUEST_DATA");
    assert_eq!(auth_user_id_key("ns", "42", "abc"), "ns:AUTH_CLIENT_42_CODE_abc_USER_ID");
    assert_eq!(auth_scopes_key("ns", "42", "abc"), "ns:AUTH_CLIENT_42_CODE_abc_SCOPES");
}

#[test]
fn client_ids_parse_as_u32() {
    assert_eq!(parse_client_id("42"), Some(42));
    assert_eq!(parse_client_id("+7"), Some(7));
    assert_eq!(parse_client_id("0042"), Some(42));
    assert_eq!(parse_client_id("4294967295"), Some(4294967295));
    assert_eq!(parse_client_id("4294967296"), None);
    assert_eq!(parse_client_id(""), None);
    assert_eq!(parse_client_id("+"), None);
    assert_eq!(parse_client_id("4a"), None);
    assert_eq!(parse_client_id("-1"), None);
}

#[test]
fn existence_check_goes_cache_then_store() {
    assert_eq!(client_exists_step(true, "abc"), ExistenceStep::Known);
    assert_eq!(client_exists_step(false, "42"), ExistenceStep::QueryStore(42));
    assert_eq!(client_exists_step(false, "x"), ExistenceStep::Unknown);
}

#[test]
fn resolution_prefers_cached_record() {
    let c = Client {
        id: 5,
        name: "n".to_string(),
        allowed_scopes: vec![],
        redirect_uris: vec![],
        secret: "s".to_string(),
    };
    assert_eq!(resolve_step(Some(c.clone()), "5"), ResolveStep::Cached(c));
    assert_eq!(resolve_step(None, "5"), ResolveStep::QueryStore(5));
    assert_eq!(resolve_step(None, "five"), ResolveStep::Absent);
}

#[test]
fn blank_is_white_space_alone() {
    assert!(is_blank(""));
    assert!(is_blank(" \t\r\n"));
    assert!(is_blank("\u{3000}\u{A0}"));
    assert!(!is_blank(" a "));
    assert!(!is_blank("read"));
}

#[test]
fn numbers_are_written_like_format() {
    for n in [0u64, 7, 10, 255, 4096, 1700000000, u64::MAX] {
        assert_eq!(decimal_text(n), format!("{}", n));
        assert_eq!(hex_text(n), format!("{:x}", n));
    }
}

#[test]
fn client_ids_are_digit_runs() {
    assert!(is_client_id(&"42".to_string()));
    assert!(is_client_id(&"0".to_string()));
    assert!(!is_client_id(&"".to_string()));
    assert!(!is_client_id(&"4 2".to_string()));
    assert!(!is_client_id(&"42\n".to_string()));
    assert!(!is_client_id(&"x1".to_string()));
}
