use vstd::prelude::*;
use crate::text::{percent_encoded_ascii, url_encode};

verus! {

/// An error that is reported to the client by redirecting to its
/// `redirect_uri`.
#[derive(Debug, Clone, Copy, PartialEq, Eq)]
pub enum ProtocolError {
    UnsupportedResponseType,
    InvalidClient,
    MissingScope,
    InvalidScope,
    ServerError,
    InvalidRedirectUri,
    AccessDenied,
}

impl ProtocolError {
    /// The value of the `error` query parameter.
    pub open spec fn code_text(self) -> Seq<char> {
        match self {
            ProtocolError::UnsupportedResponseType => "unsupported_response_type"@,
            ProtocolError::InvalidClient => "invalid_client"@,
            ProtocolError::MissingScope => "invalid_scope"@,
            ProtocolError::InvalidScope => "invalid_scope"@,
            ProtocolError::ServerError => "server_error"@,
            ProtocolError::InvalidRedirectUri => "invalid_redirect_uri"@,
            ProtocolError::AccessDenied => "access_denied"@,
        }
    }

    /// The human-readable description, before encoding.
    pub open spec fn description_text(self) -> Seq<char> {
        match self {
            ProtocolError::UnsupportedResponseType =>
                "The response_type parameter is missing or unsupported"@,
            ProtocolError::InvalidClient => "The client_id parameter is missing"@,
            ProtocolError::MissingScope => "The scope parameter is missing"@,
            ProtocolError::InvalidScope => "The scope parameter contains unknown scopes"@,
            ProtocolError::ServerError => "A database error occurred"@,
            ProtocolError::InvalidRedirectUri => "The redirect uri parameter is invalid"@,
            ProtocolError::AccessDenied => "The authorization request has been denied"@,
        }
    }

    pub fn code(&self) -> (r: &'static str)
        ensures
            r@ == self.code_text(),
    {
        match self {
            ProtocolError::UnsupportedResponseType => "unsupported_response_type",
            ProtocolError::InvalidClient => "invalid_client",
            ProtocolError::MissingScope => "invalid_scope",
            ProtocolError::InvalidScope => "invalid_scope",
            ProtocolError::ServerError => "server_error",
            ProtocolError::InvalidRedirectUri => "invalid_redirect_uri",
            ProtocolError::AccessDenied => "access_denied",
        }
    }

    pub fn description(&self) -> (r: &'static str)
        ensures
            r@ == self.description_text(),
            vstd::utf8::is_ascii_chars(r@),
    {
        proof {
            reveal_strlit("The response_type parameter is missing or unsupported");
            reveal_strlit("The client_id parameter is missing");
            reveal_strlit("The scope parameter is missing");
            reveal_strlit("The scope parameter contains unknown scopes");
            reveal_strlit("A database error occurred");
            reveal_strlit("The redirect uri parameter is invalid");
            reveal_strlit("The authorization request has been denied");
        }
        match self {
            ProtocolError::UnsupportedResponseType =>
                "The response_type parameter is missing or unsupported",
            ProtocolError::InvalidClient => "The client_id parameter is missing",
            ProtocolError::MissingScope => "The scope parameter is missing",
            ProtocolError::InvalidScope => "The scope parameter contains unknown scopes",
            ProtocolError::ServerError => "A database error occurred",
            ProtocolError::InvalidRedirectUri => "The redirect uri parameter is invalid",
            ProtocolError::AccessDenied => "The authorization request has been denied",
        }
    }
}

/// The text of an optional borrowed string.
pub open spec fn opt_ref_view(o: Option<&String>) -> Option<Seq<char>> {
    match o {
        Some(s) => Some(s@),
        None => None,
    }
}

/// The location that reports `e` to the client: its redirect URI with
/// `error`, `error_description` and, when there is one, `state`.
pub open spec fn error_location(
    redirect_uri: Seq<char>,
    e: ProtocolError,
    state: Option<Seq<char>>,
) -> Seq<char> {
    let base = redirect_uri + "?error="@ + e.code_text() + "&error_description="@
        + percent_encoded_ascii(e.description_text());
    match state {
        Some(s) => base + "&state="@ + s,
        None => base,
    }
}

/// Builds the redirect location that reports `e`.
pub fn error_redirect_uri(redirect_uri: &String, e: ProtocolError, state: Option<&String>) -> (r:
    String)
    ensures
        r@ == error_location(redirect_uri@, e, opt_ref_view(state)),
{
    let mut r = redirect_uri.clone();
    r.append("?error=");
    r.append(e.code());
    r.append("&error_description=");
    let encoded = url_encode(e.description());
    r.append(encoded.as_str());
    if let Some(s) = state {
        r.append("&state=");
        r.append(s.as_str());
    }
    r
}

pub fn unsupported_response_type_error(redirect_uri: &String, state: Option<&String>) -> (r:
    String)
    ensures
        r@ == error_location(
            redirect_uri@,
            ProtocolError::UnsupportedResponseType,
            opt_ref_view(state),
        ),
{
    error_redirect_uri(redirect_uri, ProtocolError::UnsupportedResponseType, state)
}

pub fn invalid_client_error(redirect_uri: &String, state: Option<&String>) -> (r: String)
    ensures
        r@ == error_location(redirect_uri@, ProtocolError::InvalidClient, opt_ref_view(state)),
{
    error_redirect_uri(redirect_uri, ProtocolError::InvalidClient, state)
}

pub fn missing_scope_error(redirect_uri: &String, state: Option<&String>) -> (r: String)
    ensures
        r@ == error_location(redirect_uri@, ProtocolError::MissingScope, opt_ref_view(state)),
{
    error_redirect_uri(redirect_uri, ProtocolError::MissingScope, state)
}

pub fn invalid_scope_error(redirect_uri: &String, state: Option<&String>) -> (r: String)
    ensures
        r@ == error_location(redirect_uri@, ProtocolError::InvalidScope, opt_ref_view(state)),
{
    error_redirect_uri(redirect_uri, ProtocolError::InvalidScope, state)
}

pub fn database_error(redirect_uri: &String, state: Option<&String>) -> (r: String)
    ensures
        r@ == error_location(redirect_uri@, ProtocolError::ServerError, opt_ref_view(state)),
{
    error_redirect_uri(redirect_uri, ProtocolError::ServerError, state)
}

pub fn invalid_redirect_uri_error(redirect_uri: &String, state: Option<&String>) -> (r: String)
    ensures
        r@ == error_location(
            redirect_uri@,
            ProtocolError::InvalidRedirectUri,
            opt_ref_view(state),
        ),
{
    error_redirect_uri(redirect_uri, ProtocolError::InvalidRedirectUri, state)
}

pub fn failed_authorization_error(redirect_uri: &String, state: Option<&String>) -> (r: String)
    ensures
        r@ == error_location(redirect_uri@, ProtocolError::AccessDenied, opt_ref_view(state)),
{
    error_redirect_uri(redirect_uri, ProtocolError::AccessDenied, state)
}

} // verus!
