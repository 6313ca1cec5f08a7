use vstd::prelude::*;
use crate::errors::{error_location, error_redirect_uri, opt_ref_view, ProtocolError};
use crate::model::{opt_client, opt_view, param_value, AuthorizeRequestData, Client};
use crate::text::{blank, is_blank, is_url, parses_as_url, regex_match, regex_matches};

verus! {

/// The space-separated tokens of a scope string, as `str::split(' ')` gives
/// them: empty tokens included, and one empty token for the empty string.
pub open spec fn scope_tokens(s: Seq<char>) -> Seq<Seq<char>>
    decreases s.len(),
{
    if s.len() == 0 {
        seq![Seq::<char>::empty()]
    } else {
        let t = scope_tokens(s.drop_last());
        if s.last() == ' ' {
            t.push(Seq::<char>::empty())
        } else {
            t.update(t.len() - 1, t.last().push(s.last()))
        }
    }
}

/// Whether one of the strings reads `t`.
pub open spec fn text_in(v: Seq<String>, t: Seq<char>) -> bool {
    exists|k: int| 0 <= k < v.len() && (#[trigger] v[k])@ == t
}

/// Whether every token is one of the allowed strings.
pub open spec fn all_allowed(tokens: Seq<Seq<char>>, allowed: Seq<String>) -> bool {
    forall|j: int| 0 <= j < tokens.len() ==> text_in(allowed, #[trigger] tokens[j])
}

/// Whether the client admits the request: its redirect URI is registered and
/// each of its scope tokens is allowed.
pub open spec fn client_admits(r: AuthorizeRequestData, c: Client) -> bool {
    text_in(c.redirect_uris@, r.redirect_uri@) && all_allowed(scope_tokens(r.scope@), c.allowed_scopes@)
}

/// Whether one of the strings of `v` equals `t`.
pub fn contains_text(v: &Vec<String>, t: &String) -> (r: bool)
    ensures
        r == text_in(v@, t@),
{
    let mut i: usize = 0;
    while i < v.len()
        invariant
            i <= v@.len(),
            forall|k: int| 0 <= k < i ==> (#[trigger] v@[k])@ != t@,
        decreases v@.len() - i,
    {
        if v[i] == *t {
            return true;
        }
        i = i + 1;
    }
    false
}

/// Whether every space-separated token of `scope` is one of `allowed`.
pub fn scopes_allowed(scope: &str, allowed: &Vec<String>) -> (r: bool)
    ensures
        r == all_allowed(scope_tokens(scope@), allowed@),
{
    let n = scope.unicode_len();
    let mut i: usize = 0;
    let mut start: usize = 0;
    let mut ok = true;
    let ghost mut done: Seq<Seq<char>> = Seq::empty();
    assert(scope@.take(0) == Seq::<char>::empty());
    assert(scope@.subrange(0, 0) == Seq::<char>::empty());
    while i < n
        invariant
            n == scope@.len(),
            start <= i <= n,
            scope_tokens(scope@.take(i as int)) == done.push(scope@.subrange(start as int, i as int)),
            ok == all_allowed(done, allowed@),
        decreases n - i,
    {
        let c = scope.get_char(i);
        assert(scope@.take(i + 1).drop_last() == scope@.take(i as int));
        assert(scope@.take(i + 1).last() == c);
        if c == ' ' {
            let token = scope.substring_char(start, i).to_owned();
            let found = contains_text(allowed, &token);
            proof {
                let old_done = done;
                done = done.push(scope@.subrange(start as int, i as int));
                assert(ok && found <==> all_allowed(done, allowed@)) by {
                    if all_allowed(done, allowed@) {
                        assert forall|j: int| 0 <= j < old_done.len() implies text_in(
                            allowed@,
                            #[trigger] old_done[j],
                        ) by {
                            assert(done[j] == old_done[j]);
                        }
                        assert(done[old_done.len() as int] == token@);
                    }
                }
                assert(scope@.subrange(i + 1, i + 1) == Seq::<char>::empty());
            }
            ok = ok && found;
            start = i + 1;
        } else {
            proof {
                assert(scope@.subrange(start as int, i + 1) == scope@.subrange(
                    start as int,
                    i as int,
                ).push(c));
            }
        }
        i = i + 1;
    }
    assert(scope@.take(n as int) == scope@);
    let token = scope.substring_char(start, n).to_owned();
    let found = contains_text(allowed, &token);
    proof {
        let full = done.push(scope@.subrange(start as int, n as int));
        if all_allowed(full, allowed@) {
            assert forall|j: int| 0 <= j < done.len() implies text_in(
                allowed@,
                #[trigger] done[j],
            ) by {
                assert(full[j] == done[j]);
            }
            assert(full[done.len() as int] == token@);
        }
    }
    ok && found
}

/// A rejection that shows an error page, since no redirect URI can be
/// trusted yet.
#[derive(Debug, Clone, Copy, PartialEq, Eq)]
pub enum PageError {
    MissingParameters,
    InvalidRedirectUri,
}

impl PageError {
    pub open spec fn message_text(self) -> Seq<char> {
        match self {
            PageError::MissingParameters => "Missing required parameters"@,
            PageError::InvalidRedirectUri => "Invalid redirect URI"@,
        }
    }

    /// The message shown on the error page.
    pub fn message(&self) -> (r: &'static str)
        ensures
            r@ == self.message_text(),
    {
        match self {
            PageError::MissingParameters => "Missing required parameters",
            PageError::InvalidRedirectUri => "Invalid redirect URI",
        }
    }

    /// The HTTP status shown on the error page.
    pub fn status(&self) -> (r: u16)
        ensures
            r == 400,
    {
        400
    }
}

/// How an authorization request is turned down.
#[derive(Debug, Clone, PartialEq, Eq)]
pub enum AuthorizeRejection {
    /// Shown as an error page.
    Page(PageError),
    /// Reported by redirecting the user agent to the location.
    Redirect(ProtocolError, String),
}

/// Whether `rej` reports `e` through the request's own redirect URI and state.
pub open spec fn redirects_with(rej: AuthorizeRejection, r: AuthorizeRequestData, e: ProtocolError) -> bool {
    match rej {
        AuthorizeRejection::Redirect(e2, loc) => e2 == e && loc@ == error_location(
            r.redirect_uri@,
            e,
            opt_view(r.state),
        ),
        _ => false,
    }
}

/// Whether a client id has the form of one: it matches `^\d+$`.
pub open spec fn valid_client_id(id: Seq<char>) -> bool {
    regex_matches("^\\d+$"@, id)
}

/// Checks a client id against `^\d+$`.
pub fn is_client_id(id: &String) -> (r: bool)
    ensures
        r == valid_client_id(id@),
{
    match regex_match("^\\d+$", id) {
        Some(b) => b,
        None => false,
    }
}

/// The first failed check of a request's own form, if any.
pub open spec fn form_error(r: AuthorizeRequestData) -> Option<ProtocolError> {
    if !valid_client_id(r.client_id@) {
        Some(ProtocolError::InvalidClient)
    } else if blank(r.scope@) {
        Some(ProtocolError::MissingScope)
    } else if r.response_type is Some && r.response_type->0@ != "code"@ {
        Some(ProtocolError::UnsupportedResponseType)
    } else {
        None
    }
}

fn reject(r: &AuthorizeRequestData, e: ProtocolError) -> (rej: AuthorizeRejection)
    ensures
        redirects_with(rej, *r, e),
{
    let loc = error_redirect_uri(&r.redirect_uri, e, r.state.as_ref());
    AuthorizeRejection::Redirect(e, loc)
}

/// Validates the query of an authorization request.
pub fn validate_authorize_request(params: &Vec<(String, String)>) -> (res: Result<
    AuthorizeRequestData,
    AuthorizeRejection,
>)
    ensures
        !AuthorizeRequestData::has_required(params@) ==> res == Err::<AuthorizeRequestData, _>(
            AuthorizeRejection::Page(PageError::MissingParameters),
        ),
        AuthorizeRequestData::has_required(params@) ==> {
            let uri = param_value(params@, "redirect_uri"@)->0;
            &&& !parses_as_url(uri) ==> res == Err::<AuthorizeRequestData, _>(
                AuthorizeRejection::Page(PageError::InvalidRedirectUri),
            )
            &&& parses_as_url(uri) ==> match res {
                Ok(r) => AuthorizeRequestData::from_params(params@, r) && form_error(r) is None,
                Err(rej) => exists|r: AuthorizeRequestData|
                    AuthorizeRequestData::from_params(params@, r) && #[trigger] form_error(r)
                        is Some && redirects_with(rej, r, form_error(r)->0),
            }
        },
{
    let r = match AuthorizeRequestData::new(params) {
        Some(r) => r,
        None => return Err(AuthorizeRejection::Page(PageError::MissingParameters)),
    };
    if !is_url(&r.redirect_uri) {
        return Err(AuthorizeRejection::Page(PageError::InvalidRedirectUri));
    }
    let mut err: Option<ProtocolError> = None;
    if !is_client_id(&r.client_id) {
        err = Some(ProtocolError::InvalidClient);
    } else if is_blank(r.scope.as_str()) {
        err = Some(ProtocolError::MissingScope);
    } else if let Some(t) = &r.response_type {
        let code = "code".to_owned();
        if *t != code {
            err = Some(ProtocolError::UnsupportedResponseType);
        }
    }
    assert(err == form_error(r));
    match err {
        Some(e) => Err(reject(&r, e)),
        None => Ok(r),
    }
}

/// The error with which a valid request is turned down, given what the client
/// directory knows of its client.
pub open spec fn client_error(r: AuthorizeRequestData, known: bool, client: Option<Client>) -> Option<
    ProtocolError,
> {
    if !known {
        Some(ProtocolError::InvalidClient)
    } else if client is None {
        Some(ProtocolError::ServerError)
    } else if !text_in(client->0.redirect_uris@, r.redirect_uri@) {
        Some(ProtocolError::InvalidRedirectUri)
    } else if !all_allowed(scope_tokens(r.scope@), client->0.allowed_scopes@) {
        Some(ProtocolError::InvalidScope)
    } else {
        None
    }
}

/// Decides a validated request against the client directory's answer: whether
/// the client is known, and its record.
pub fn authorization_code_flow(r: &AuthorizeRequestData, known: bool, client: Option<&Client>) -> (res:
    Result<(), AuthorizeRejection>)
    ensures
        match client_error(*r, known, opt_client(client)) {
            None => res is Ok,
            Some(e) => res matches Err(rej) && redirects_with(rej, *r, e),
        },
{
    if !known {
        return Err(reject(r, ProtocolError::InvalidClient));
    }
    let c = match client {
        Some(c) => c,
        None => return Err(reject(r, ProtocolError::ServerError)),
    };
    if !contains_text(&c.redirect_uris, &r.redirect_uri) {
        return Err(reject(r, ProtocolError::InvalidRedirectUri));
    }
    if !scopes_allowed(r.scope.as_str(), &c.allowed_scopes) {
        return Err(reject(r, ProtocolError::InvalidScope));
    }
    Ok(())
}

} // verus!
