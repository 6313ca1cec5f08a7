use vstd::prelude::*;
use rand::Rng;
use crate::errors::{error_location, error_redirect_uri, ProtocolError};
use crate::model::{opt_view, AuthorizeRequestData, User};
use crate::text::{decimal_digits, decimal_text, hex_digits, hex_text, is_ascii_alphanumeric};

verus! {

/// Number of characters of an authorization code.
pub const CODE_LEN: usize = 32;

/// An authorization code granted to a client for a user, with the location
/// that hands it to the client.
#[derive(Debug, Clone, PartialEq, Eq)]
pub struct CodeGrant {
    pub client_id: String,
    pub code: String,
    pub user_id: String,
    pub scopes: String,
    pub location: String,
}

/// What answers a login attempt.
#[derive(Debug, Clone, PartialEq, Eq)]
pub enum LoginOutcome {
    /// The generic login error page.
    ErrorPage,
    /// A redirect that reports `access_denied`.
    Denied(String),
    /// Store the grant, then redirect to its location.
    Grant(CodeGrant),
}

/// The location that hands `code` (and the state, when there is one) to the
/// client.
pub open spec fn code_location(redirect_uri: Seq<char>, code: Seq<char>, state: Option<Seq<char>>) -> Seq<
    char,
> {
    let base = redirect_uri + "?code="@ + code;
    match state {
        Some(s) => base + "&state="@ + s,
        None => base,
    }
}

/// The outcome of a login attempt for the pending request, the user that the
/// credentials matched, and a freshly drawn code.
pub open spec fn login_outcome_ok(
    pending: Option<AuthorizeRequestData>,
    user: Option<User>,
    code: Seq<char>,
    out: LoginOutcome,
) -> bool {
    match pending {
        None => out == LoginOutcome::ErrorPage,
        Some(p) => if user is Some && p.response_type is Some && p.response_type->0@ == "code"@ {
            match out {
                LoginOutcome::Grant(g) => {
                    &&& g.client_id@ == p.client_id@
                    &&& g.code@ == code
                    &&& g.user_id@ == decimal_digits(user->0.id as nat)
                    &&& g.scopes@ == p.scope@
                    &&& g.location@ == code_location(p.redirect_uri@, code, opt_view(p.state))
                },
                _ => false,
            }
        } else {
            match out {
                LoginOutcome::Denied(loc) => loc@ == error_location(
                    p.redirect_uri@,
                    ProtocolError::AccessDenied,
                    opt_view(p.state),
                ),
                _ => false,
            }
        },
    }
}

/// Decides a login attempt: `pending` is the request stored under the form's
/// request id, `user` the user whose email and password matched, and `code`
/// the code to grant.
pub fn login_decision(pending: Option<&AuthorizeRequestData>, user: Option<&User>, code: &String) -> (out:
    LoginOutcome)
    ensures
        login_outcome_ok(
            match pending {
                Some(p) => Some(*p),
                None => None,
            },
            match user {
                Some(u) => Some(*u),
                None => None,
            },
            code@,
            out,
        ),
{
    let p = match pending {
        Some(p) => p,
        None => return LoginOutcome::ErrorPage,
    };
    let granted = match (user, &p.response_type) {
        (Some(u), Some(t)) => {
            let expected = "code".to_owned();
            if *t == expected {
                Some(u)
            } else {
                None
            }
        },
        _ => None,
    };
    match granted {
        Some(u) => {
            let mut location = p.redirect_uri.clone();
            location.append("?code=");
            location.append(code.as_str());
            if let Some(s) = &p.state {
                location.append("&state=");
                location.append(s.as_str());
            }
            LoginOutcome::Grant(
                CodeGrant {
                    client_id: p.client_id.clone(),
                    code: code.clone(),
                    user_id: decimal_text(u.id as u64),
                    scopes: p.scope.clone(),
                    location,
                },
            )
        },
        None => LoginOutcome::Denied(
            error_redirect_uri(&p.redirect_uri, ProtocolError::AccessDenied, p.state.as_ref()),
        ),
    }
}

/// The text of a request id: the time in seconds, `-`, and the nonce in
/// lowercase hexadecimal.
pub open spec fn request_id_text(timestamp: u64, nonce: u64) -> Seq<char> {
    decimal_digits(timestamp as nat) + "-"@ + hex_digits(nonce as nat)
}

/// Builds the request id for a time and a nonce.
pub fn request_id_from(timestamp: u64, nonce: u64) -> (r: String)
    ensures
        r@ == request_id_text(timestamp, nonce),
{
    let mut r = decimal_text(timestamp);
    r.append("-");
    let h = hex_text(nonce);
    r.append(h.as_str());
    r
}

/// Relies on std's `SystemTime::now` and `duration_since(UNIX_EPOCH)`: the
/// current time in whole seconds, or `None` before the epoch.
#[verifier::external_body]
fn unix_time_secs() -> (r: Option<u64>) {
    std::time::SystemTime::now().duration_since(std::time::UNIX_EPOCH).ok().map(|d| d.as_secs())
}

/// Relies on rand's `random::<u64>`: any value may come back.
#[verifier::external_body]
fn random_u64() -> (r: u64) {
    rand::random::<u64>()
}

/// Relies on rand's `Alphanumeric` distribution sampled through
/// `thread_rng().sample_iter`: `n` characters, each an ASCII letter or digit.
#[verifier::external_body]
fn random_alphanumeric(n: usize) -> (r: String)
    ensures
        r@.len() == n,
        forall|i: int| 0 <= i < r@.len() ==> is_ascii_alphanumeric(#[trigger] r@[i]),
{
    rand::thread_rng().sample_iter(&rand::distributions::Alphanumeric).take(n).map(char::from).collect()
}

/// Draws a fresh request id from the clock (zero before the epoch) and a
/// random nonce.
pub fn generate_request_id() -> (r: String)
    ensures
        exists|t: u64, n: u64| r@ == request_id_text(t, n),
{
    let t = match unix_time_secs() {
        Some(t) => t,
        None => 0,
    };
    let n = random_u64();
    request_id_from(t, n)
}

/// Draws a fresh authorization code.
pub fn generate_code() -> (r: String)
    ensures
        r@.len() == CODE_LEN,
        forall|i: int| 0 <= i < r@.len() ==> is_ascii_alphanumeric(#[trigger] r@[i]),
{
    random_alphanumeric(CODE_LEN)
}

} // verus!
