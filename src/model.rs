use vstd::prelude::*;

verus! {

/// A registered client of the identity provider.
#[derive(Debug, Clone, PartialEq, Eq)]
pub struct Client {
    pub id: u32,
    pub name: String,
    pub allowed_scopes: Vec<String>,
    pub redirect_uris: Vec<String>,
    pub secret: String,
}

/// An end user with the credentials stored for them.
#[derive(Debug, Clone, PartialEq, Eq)]
pub struct User {
    pub id: u32,
    pub email: String,
    pub password: String,
}

/// The parameters of an authorization request, as received.
#[derive(Debug, Clone, PartialEq, Eq)]
pub struct AuthorizeRequestData {
    pub client_id: String,
    pub redirect_uri: String,
    pub scope: String,
    pub state: Option<String>,
    pub response_type: Option<String>,
}

/// The fields of a submitted login form.
#[derive(Debug, Clone, PartialEq, Eq)]
pub struct LoginRequestData {
    pub request_id: String,
    pub email: String,
    pub password: String,
}

/// The body of a token-exchange request.
#[derive(Debug, Clone, PartialEq, Eq)]
pub struct TokenRequest {
    pub client_id: String,
    pub client_secret: String,
    pub auth_code: String,
}

/// The text of an optional string.
pub open spec fn opt_view(o: Option<String>) -> Option<Seq<char>> {
    match o {
        Some(s) => Some(s@),
        None => None,
    }
}

/// The record behind an optional borrowed client.
pub open spec fn opt_client(c: Option<&Client>) -> Option<Client> {
    match c {
        Some(c) => Some(*c),
        None => None,
    }
}

/// The value bound to `key` in a list of decoded parameters; a later binding
/// of the same key replaces an earlier one.
pub open spec fn param_value(params: Seq<(String, String)>, key: Seq<char>) -> Option<Seq<char>>
    decreases params.len(),
{
    if params.len() == 0 {
        None
    } else if params.last().0@ == key {
        Some(params.last().1@)
    } else {
        param_value(params.drop_last(), key)
    }
}

/// Looks up the value bound to `key`.
pub fn find_param(params: &Vec<(String, String)>, key: &str) -> (r: Option<String>)
    ensures
        opt_view(r) == param_value(params@, key@),
{
    let k = key.to_owned();
    let mut i: usize = params.len();
    assert(params@.take(i as int) == params@);
    while i > 0
        invariant
            i <= params@.len(),
            k@ == key@,
            param_value(params@, key@) == param_value(params@.take(i as int), key@),
        decreases i,
    {
        i = i - 1;
        assert(params@.take(i as int + 1).drop_last() == params@.take(i as int));
        if params[i].0 == k {
            return Some(params[i].1.clone());
        }
    }
    None
}

impl AuthorizeRequestData {
    /// Whether the parameters hold the fields of `r`, with the three required
    /// ones present.
    pub open spec fn from_params(params: Seq<(String, String)>, r: Self) -> bool {
        &&& param_value(params, "client_id"@) == Some(r.client_id@)
        &&& param_value(params, "redirect_uri"@) == Some(r.redirect_uri@)
        &&& param_value(params, "scope"@) == Some(r.scope@)
        &&& param_value(params, "state"@) == opt_view(r.state)
        &&& param_value(params, "response_type"@) == opt_view(r.response_type)
    }

    /// Whether all of the required parameters are present.
    pub open spec fn has_required(params: Seq<(String, String)>) -> bool {
        &&& param_value(params, "client_id"@) is Some
        &&& param_value(params, "redirect_uri"@) is Some
        &&& param_value(params, "scope"@) is Some
    }

    /// Builds the request from decoded query parameters; `None` when
    /// `client_id`, `redirect_uri` or `scope` is missing.
    pub fn new(params: &Vec<(String, String)>) -> (r: Option<Self>)
        ensures
            r is Some <==> Self::has_required(params@),
            r matches Some(d) ==> Self::from_params(params@, d),
    {
        let client_id = find_param(params, "client_id")?;
        let redirect_uri = find_param(params, "redirect_uri")?;
        let scope = find_param(params, "scope")?;
        let state = find_param(params, "state");
        let response_type = find_param(params, "response_type");
        Some(AuthorizeRequestData { client_id, redirect_uri, scope, state, response_type })
    }
}

impl LoginRequestData {
    /// Builds the login data from a decoded form; `None` when a field is
    /// missing.
    pub fn new(params: &Vec<(String, String)>) -> (r: Option<Self>)
        ensures
            r is Some <==> {
                &&& param_value(params@, "request_id"@) is Some
                &&& param_value(params@, "email"@) is Some
                &&& param_value(params@, "password"@) is Some
            },
            r matches Some(d) ==> {
                &&& param_value(params@, "request_id"@) == Some(d.request_id@)
                &&& param_value(params@, "email"@) == Some(d.email@)
                &&& param_value(params@, "password"@) == Some(d.password@)
            },
    {
        let request_id = find_param(params, "request_id")?;
        let email = find_param(params, "email")?;
        let password = find_param(params, "password")?;
        Some(LoginRequestData { request_id, email, password })
    }
}

} // verus!
