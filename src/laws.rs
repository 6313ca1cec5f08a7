use vstd::prelude::*;
use crate::authorize::{
    all_allowed, client_admits, client_error, form_error, scope_tokens, text_in, valid_client_id,
};
use crate::errors::ProtocolError;
use crate::model::{AuthorizeRequestData, Client, TokenRequest};
use crate::text::blank;
use crate::token::{claims_for, exchange_error, TokenError, TOKEN_LIFETIME_SECS};

verus! {

/// A well-formed request for a known client that registers its redirect URI
/// and allows each of its scopes passes every check, and so is answered with
/// the login page.
pub proof fn admitted_request_passes(r: AuthorizeRequestData, c: Client)
    requires
        form_error(r) is None,
        client_admits(r, c),
    ensures
        client_error(r, true, Some(c)) is None,
{
}

/// A request whose redirect URI the client has not registered is turned down
/// with `invalid_redirect_uri`.
pub proof fn unregistered_redirect_is_rejected(r: AuthorizeRequestData, c: Client)
    requires
        !text_in(c.redirect_uris@, r.redirect_uri@),
    ensures
        client_error(r, true, Some(c)) == Some(ProtocolError::InvalidRedirectUri),
        ProtocolError::InvalidRedirectUri.code_text() == "invalid_redirect_uri"@,
{
}

/// A request with a registered redirect URI and a scope token that the client
/// does not allow is turned down with `invalid_scope`.
pub proof fn unknown_scope_is_rejected(r: AuthorizeRequestData, c: Client, j: int)
    requires
        text_in(c.redirect_uris@, r.redirect_uri@),
        0 <= j < scope_tokens(r.scope@).len(),
        !text_in(c.allowed_scopes@, scope_tokens(r.scope@)[j]),
    ensures
        client_error(r, true, Some(c)) == Some(ProtocolError::InvalidScope),
        ProtocolError::InvalidScope.code_text() == "invalid_scope"@,
{
    assert(!all_allowed(scope_tokens(r.scope@), c.allowed_scopes@));
}

/// A request with a well-formed client id and an empty (or blank) scope is
/// turned down with `invalid_scope` and the description of a missing scope,
/// which differs from that of an unknown scope.
pub proof fn empty_scope_is_rejected(r: AuthorizeRequestData)
    requires
        valid_client_id(r.client_id@),
        blank(r.scope@),
    ensures
        form_error(r) == Some(ProtocolError::MissingScope),
        ProtocolError::MissingScope.code_text() == "invalid_scope"@,
        ProtocolError::MissingScope.description_text() == "The scope parameter is missing"@,
        ProtocolError::MissingScope.description_text()
            != ProtocolError::InvalidScope.description_text(),
{
    reveal_strlit("The scope parameter is missing");
    reveal_strlit("The scope parameter contains unknown scopes");
    assert("The scope parameter is missing"@.len() != "The scope parameter contains unknown scopes"@.len());
}

/// A known client that presents its secret and a code with both halves of its
/// entry, with a signing key configured, fails none of the checks, so
/// `exchange_token` returns the signed token; its claims carry the stored user
/// id and scopes and expire an hour after issuance.
pub proof fn valid_exchange_issues_token(
    req: TokenRequest,
    c: Client,
    user_id: String,
    scopes: String,
    now: u64,
)
    requires
        c.secret@ == req.client_secret@,
        now + TOKEN_LIFETIME_SECS <= u64::MAX,
    ensures
        exchange_error(req, true, Some(c), Some(user_id), Some(scopes), true) is None,
        claims_for(user_id@, req.client_id@, scopes@, now) == (
            user_id@,
            req.client_id@,
            scopes@,
            (now + 3600) as u64,
        ),
{
}

/// A wrong secret for a known client is answered with 401, and no token.
pub proof fn wrong_secret_is_unauthorized(
    req: TokenRequest,
    c: Client,
    user_id: Option<String>,
    scopes: Option<String>,
    key_set: bool,
)
    requires
        c.secret@ != req.client_secret@,
    ensures
        exchange_error(req, true, Some(c), user_id, scopes, key_set) == Some(
            TokenError::InvalidSecret,
        ),
        TokenError::InvalidSecret.status_code() == 401,
{
}

/// An unknown client is answered with 400.
pub proof fn unknown_client_is_bad_request(
    req: TokenRequest,
    c: Option<Client>,
    user_id: Option<String>,
    scopes: Option<String>,
    key_set: bool,
)
    ensures
        exchange_error(req, false, c, user_id, scopes, key_set) == Some(TokenError::UnknownClient),
        TokenError::UnknownClient.status_code() == 400,
{
}

/// A code whose entry is missing, in whole or in half, is answered with 401.
pub proof fn unknown_code_is_unauthorized(
    req: TokenRequest,
    c: Client,
    user_id: Option<String>,
    scopes: Option<String>,
    key_set: bool,
)
    requires
        c.secret@ == req.client_secret@,
        user_id is None || scopes is None,
    ensures
        exchange_error(req, true, Some(c), user_id, scopes, key_set) matches Some(e)
            && e.status_code() == 401,
{
}

} // verus!
