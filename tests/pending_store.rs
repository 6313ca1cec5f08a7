use oauth_provider::authorize::{authorization_code_flow, validate_authorize_request};
use oauth_provider::keys::request_data_key;
use oauth_provider::login::generate_request_id;
use oauth_provider::model::{AuthorizeRequestData, Client};
use oauth_provider::pending::{decode_request, encode_request};

fn full() -> AuthorizeRequestData {
    AuthorizeRequestData {
        client_id: "42".to_string(),
        redirect_uri: "https://app.example/cb".to_string(),
        scope: "read write".to_string(),
        state: Some("xyz".to_string()),
        response_type: Some("code".to_string()),
    }
}

#[test]
fn round_trip_with_optional_fields() {
    let r = full();
    assert_eq!(decode_request(&encode_request(&r)), Some(r));
}

#[test]
fn round_trip_without_optional_fields() {
    let r = AuthorizeRequestData { state: None, response_type: None, ..full() };
    assert_eq!(decode_request(&encode_request(&r)), Some(r));
}

#[test]
fn round_trip_with_awkward_text() {
    let r = AuthorizeRequestData {
        client_id: "".to_string(),
        redirect_uri: "https://a.b/c?x=1:2+3-4".to_string(),
        scope: "ünïcödé 12:34".to_string(),
        state: Some("".to_string()),
        response_type: None,
    };
    assert_eq!(decode_request(&encode_request(&r)), Some(r));
}

#[test]
fn encoding_is_length_prefixed() {
    assert_eq!(
        encode_request(&full()),
        "2:4222:https://app.example/cb10:read write+3:xyz+4:code"
    );
    let r = AuthorizeRequestData { state: None, response_type: None, ..full() };
    assert_eq!(encode_request(&r), "2:4222:https://app.example/cb10:read write--");
}

#[test]
fn malformed_text_does_not_decode() {
    assert_eq!(decode_request(""), None);
    assert_eq!(decode_request("2:42"), None);
    assert_eq!(decode_request("2:4222:https://app.example/cb10:read write--x"), None);
    assert_eq!(decode_request("9:42"), None);
    assert_eq!(decode_request("99999999999999999999999:x"), None);
    assert_eq!(decode_request("02:4222:https://app.example/cb10:read write--"), None);
    assert_eq!(decode_request(":2:4222:https://app.example/cb10:read write--"), None);
    assert_eq!(decode_request("2:4222:https://app.example/cb10:read write-+"), None);
}

#[test]
fn admitted_request_is_stored_and_found_unchanged() {
    let c = Client {
        id: 42,
        name: "Example App".to_string(),
        allowed_scopes: vec!["read".to_string(), "write".to_string()],
        redirect_uris: vec!["https://app.example/cb".to_string()],
        secret: "s".to_string(),
    };
    let params: Vec<(String, String)> = vec![
        ("client_id".to_string(), "42".to_string()),
        ("redirect_uri".to_string(), "https://app.example/cb".to_string()),
        ("scope".to_string(), "write".to_string()),
    ];
    let r = validate_authorize_request(&params).unwrap();
    assert_eq!(authorization_code_flow(&r, true, Some(&c)), Ok(()));
    let id = generate_request_id();
    let key = request_data_key("ns", &id);
    assert_eq!(key, format!("ns:REQUEST_ID_{}_REQUEST_DATA", id));
    let stored = encode_request(&r);
    assert_eq!(decode_request(&stored), Some(r));
}
