use vstd::prelude::*;
use crate::model::{opt_client, Client, TokenRequest};

verus! {

/// Lifetime of an access token, in seconds.
pub const TOKEN_LIFETIME_SECS: u64 = 3600;

/// The claims of an access token.
#[derive(Debug, Clone, PartialEq, Eq)]
pub struct Claims {
    pub sub: String,
    pub client_id: String,
    pub scopes: String,
    pub exp: u64,
}

/// The body of a successful token exchange.
#[derive(Debug, Clone, PartialEq, Eq)]
pub struct TokenResponse {
    pub access_token: String,
    pub token_type: String,
    pub expires_in: u64,
}

/// Why a token exchange failed.
#[derive(Debug, Clone, Copy, PartialEq, Eq)]
pub enum TokenError {
    UnknownClient,
    ClientDataNotFound,
    InvalidSecret,
    UnknownScopes,
    UnknownUserId,
    UnknownCode,
    MissingSigningKey,
}

impl TokenError {
    pub open spec fn status_code(self) -> u16 {
        match self {
            TokenError::UnknownClient => 400,
            TokenError::ClientDataNotFound => 400,
            TokenError::InvalidSecret => 401,
            TokenError::UnknownScopes => 401,
            TokenError::UnknownUserId => 401,
            TokenError::UnknownCode => 401,
            TokenError::MissingSigningKey => 500,
        }
    }

    pub open spec fn message_text(self) -> Seq<char> {
        match self {
            TokenError::UnknownClient => "Invalid client_id"@,
            TokenError::ClientDataNotFound => "Client data not found"@,
            TokenError::InvalidSecret => "Invalid client_secret"@,
            TokenError::UnknownScopes => "Unknown scopes for auth code"@,
            TokenError::UnknownUserId => "Unknown user id for auth code"@,
            TokenError::UnknownCode => "Unknown auth code"@,
            TokenError::MissingSigningKey => "Signing key is not configured"@,
        }
    }

    /// The HTTP status of the error response.
    pub fn status(&self) -> (r: u16)
        ensures
            r == self.status_code(),
    {
        match self {
            TokenError::UnknownClient => 400,
            TokenError::ClientDataNotFound => 400,
            TokenError::InvalidSecret => 401,
            TokenError::UnknownScopes => 401,
            TokenError::UnknownUserId => 401,
            TokenError::UnknownCode => 401,
            TokenError::MissingSigningKey => 500,
        }
    }

    /// The body of the error response.
    pub fn message(&self) -> (r: &'static str)
        ensures
            r@ == self.message_text(),
    {
        match self {
            TokenError::UnknownClient => "Invalid client_id",
            TokenError::ClientDataNotFound => "Client data not found",
            TokenError::InvalidSecret => "Invalid client_secret",
            TokenError::UnknownScopes => "Unknown scopes for auth code",
            TokenError::UnknownUserId => "Unknown user id for auth code",
            TokenError::UnknownCode => "Unknown auth code",
            TokenError::MissingSigningKey => "Signing key is not configured",
        }
    }
}

/// The HS256 JSON Web Token that carries the claims, signed with `key`.
pub uninterp spec fn signed_token(
    sub: Seq<char>,
    client_id: Seq<char>,
    scopes: Seq<char>,
    exp: u64,
    key: Seq<char>,
) -> Seq<char>;

/// Relies on jsonwebtoken's `encode` with the default header (HS256) and
/// `EncodingKey::from_secret`: the key's family matches the header's, the
/// header and a map of string and number claims always serialize, and HMAC
/// signing always succeeds, so a token always comes back; it is a function of
/// the claims and the key.
#[verifier::external_body]
fn sign_claims(claims: &Claims, key: &String) -> (r: String)
    ensures
        r@ == signed_token(
            claims.sub@,
            claims.client_id@,
            claims.scopes@,
            claims.exp,
            key@,
        ),
{
    let mut body = serde_json::Map::new();
    body.insert("sub".to_string(), serde_json::Value::from(claims.sub.clone()));
    body.insert("client_id".to_string(), serde_json::Value::from(claims.client_id.clone()));
    body.insert("scopes".to_string(), serde_json::Value::from(claims.scopes.clone()));
    body.insert("exp".to_string(), serde_json::Value::from(claims.exp));
    let encoding_key = jsonwebtoken::EncodingKey::from_secret(key.as_bytes());
    jsonwebtoken::encode(&jsonwebtoken::Header::default(), &body, &encoding_key).unwrap()
}

/// The error of a token exchange that is decided before signing, given
/// whether the client is known, its record, the two halves of the code's
/// entry and the signing key.
pub open spec fn exchange_error(
    req: TokenRequest,
    known: bool,
    client: Option<Client>,
    user_id: Option<String>,
    scopes: Option<String>,
    key_set: bool,
) -> Option<TokenError> {
    if !known {
        Some(TokenError::UnknownClient)
    } else if client is None {
        Some(TokenError::ClientDataNotFound)
    } else if client->0.secret@ != req.client_secret@ {
        Some(TokenError::InvalidSecret)
    } else if user_id is Some && scopes is None {
        Some(TokenError::UnknownScopes)
    } else if user_id is None && scopes is Some {
        Some(TokenError::UnknownUserId)
    } else if user_id is None && scopes is None {
        Some(TokenError::UnknownCode)
    } else if !key_set {
        Some(TokenError::MissingSigningKey)
    } else {
        None
    }
}

/// The claims of the token issued at `now` for a code's entry.
pub open spec fn claims_for(user_id: Seq<char>, client_id: Seq<char>, scopes: Seq<char>, now: u64) -> (
    Seq<char>,
    Seq<char>,
    Seq<char>,
    u64,
) {
    (user_id, client_id, scopes, (now + TOKEN_LIFETIME_SECS) as u64)
}

/// Builds the claims of the token issued at `now`.
pub fn build_claims(user_id: &String, client_id: &String, scopes: &String, now: u64) -> (c: Claims)
    requires
        now + TOKEN_LIFETIME_SECS <= u64::MAX,
    ensures
        (c.sub@, c.client_id@, c.scopes@, c.exp) == claims_for(user_id@, client_id@, scopes@, now),
{
    Claims {
        sub: user_id.clone(),
        client_id: client_id.clone(),
        scopes: scopes.clone(),
        exp: now + TOKEN_LIFETIME_SECS,
    }
}

/// Exchanges an authorization code for a signed access token, given what the
/// client directory and the code store returned, the time `now` in seconds
/// since the epoch and the configured signing key.
pub fn exchange_token(
    req: &TokenRequest,
    known: bool,
    client: Option<&Client>,
    user_id: Option<String>,
    scopes: Option<String>,
    now: u64,
    signing_key: Option<&String>,
) -> (res: Result<TokenResponse, TokenError>)
    requires
        now + TOKEN_LIFETIME_SECS <= u64::MAX,
    ensures
        match exchange_error(
            *req,
            known,
            opt_client(client),
            user_id,
            scopes,
            signing_key is Some,
        ) {
            Some(e) => res == Err::<TokenResponse, TokenError>(e),
            None => match res {
                Ok(t) => {
                    let (sub, cid, sc, exp) = claims_for(
                        user_id->0@,
                        req.client_id@,
                        scopes->0@,
                        now,
                    );
                    &&& t.access_token@ == signed_token(sub, cid, sc, exp, signing_key->0@)
                    &&& t.token_type@ == "Bearer"@
                    &&& t.expires_in == TOKEN_LIFETIME_SECS
                },
                Err(_) => false,
            },
        },
{
    if !known {
        return Err(TokenError::UnknownClient);
    }
    let c = match client {
        Some(c) => c,
        None => return Err(TokenError::ClientDataNotFound),
    };
    if c.secret != req.client_secret {
        return Err(TokenError::InvalidSecret);
    }
    let (user_id, scopes) = match (user_id, scopes) {
        (Some(u), Some(s)) => (u, s),
        (Some(_), None) => return Err(TokenError::UnknownScopes),
        (None, Some(_)) => return Err(TokenError::UnknownUserId),
        (None, None) => return Err(TokenError::UnknownCode),
    };
    let key = match signing_key {
        Some(k) => k,
        None => return Err(TokenError::MissingSigningKey),
    };
    let claims = build_claims(&user_id, &req.client_id, &scopes, now);
    let t = sign_claims(&claims, key);
    Ok(TokenResponse { access_token: t, token_type: "Bearer".to_owned(), expires_in: TOKEN_LIFETIME_SECS })
}

} // verus!
