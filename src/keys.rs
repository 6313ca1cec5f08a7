use vstd::prelude::*;
use crate::directory::all_ascii_digits;
use crate::text::is_ascii_digit;

verus! {

/// Seconds that a cached entry (a client record, a pending request, either
/// half of an authorization code's entry) lives.
pub const CACHE_TTL_SECS: u64 = 600;

/// A cache key inside the deployment's namespace.
pub open spec fn namespaced(prefix: Seq<char>, key: Seq<char>) -> Seq<char> {
    prefix + ":"@ + key
}

pub open spec fn request_data_key_text(prefix: Seq<char>, request_id: Seq<char>) -> Seq<char> {
    namespaced(prefix, "REQUEST_ID_"@ + request_id + "_REQUEST_DATA"@)
}

pub open spec fn client_data_key_text(prefix: Seq<char>, client_id: Seq<char>) -> Seq<char> {
    namespaced(prefix, "CLIENT_"@ + client_id + "_DATA"@)
}

pub open spec fn auth_user_id_key_text(prefix: Seq<char>, client_id: Seq<char>, code: Seq<char>) -> Seq<
    char,
> {
    namespaced(prefix, "AUTH_CLIENT_"@ + client_id + "_CODE_"@ + code + "_USER_ID"@)
}

pub open spec fn auth_scopes_key_text(prefix: Seq<char>, client_id: Seq<char>, code: Seq<char>) -> Seq<
    char,
> {
    namespaced(prefix, "AUTH_CLIENT_"@ + client_id + "_CODE_"@ + code + "_SCOPES"@)
}

/// Places `key` in the namespace `prefix`.
pub fn prefixed_key(prefix: &str, key: &str) -> (r: String)
    ensures
        r@ == namespaced(prefix@, key@),
{
    let mut r = prefix.to_owned();
    r.append(":");
    r.append(key);
    r
}

/// The key of the set of client ids known to exist.
pub fn client_ids_key(prefix: &str) -> (r: String)
    ensures
        r@ == namespaced(prefix@, "CLIENT_IDS"@),
{
    prefixed_key(prefix, "CLIENT_IDS")
}

fn framed(head: &str, middle: &str, tail: &str) -> (r: String)
    ensures
        r@ == head@ + middle@ + tail@,
{
    let mut r = head.to_owned();
    r.append(middle);
    r.append(tail);
    r
}

/// The key under which a pending authorization request is kept.
pub fn request_data_key(prefix: &str, request_id: &str) -> (r: String)
    ensures
        r@ == request_data_key_text(prefix@, request_id@),
{
    let k = framed("REQUEST_ID_", request_id, "_REQUEST_DATA");
    prefixed_key(prefix, k.as_str())
}

/// The key under which a client's record is cached.
pub fn client_data_key(prefix: &str, client_id: &str) -> (r: String)
    ensures
        r@ == client_data_key_text(prefix@, client_id@),
{
    let k = framed("CLIENT_", client_id, "_DATA");
    prefixed_key(prefix, k.as_str())
}

fn auth_key(prefix: &str, client_id: &str, code: &str, tail: &str) -> (r: String)
    ensures
        r@ == namespaced(prefix@, "AUTH_CLIENT_"@ + client_id@ + "_CODE_"@ + code@ + tail@),
{
    let mut k = framed("AUTH_CLIENT_", client_id, "_CODE_");
    k.append(code);
    k.append(tail);
    prefixed_key(prefix, k.as_str())
}

/// The key under which the user id of a code granted to a client is kept.
pub fn auth_user_id_key(prefix: &str, client_id: &str, code: &str) -> (r: String)
    ensures
        r@ == auth_user_id_key_text(prefix@, client_id@, code@),
{
    auth_key(prefix, client_id, code, "_USER_ID")
}

/// The key under which the scopes of a code granted to a client are kept.
pub fn auth_scopes_key(prefix: &str, client_id: &str, code: &str) -> (r: String)
    ensures
        r@ == auth_scopes_key_text(prefix@, client_id@, code@),
{
    auth_key(prefix, client_id, code, "_SCOPES")
}

/// Distinct request ids are kept under distinct keys, so a pending request is
/// found only under the id that was handed out for it.
pub proof fn request_key_injective(prefix: Seq<char>, a: Seq<char>, b: Seq<char>)
    requires
        request_data_key_text(prefix, a) == request_data_key_text(prefix, b),
    ensures
        a == b,
{
    let head = prefix + ":"@ + "REQUEST_ID_"@;
    let tail = "_REQUEST_DATA"@;
    let ka = request_data_key_text(prefix, a);
    let kb = request_data_key_text(prefix, b);
    assert(ka == head + a + tail);
    assert(kb == head + b + tail);
    assert(a.len() == b.len());
    assert(a == ka.subrange(head.len() as int, (head.len() + a.len()) as int));
    assert(b == kb.subrange(head.len() as int, (head.len() + b.len()) as int));
}

/// Where a numeric client id ends inside a code's key, the separator begins.
proof fn lemma_id_boundary(head: Seq<char>, short: Seq<char>, long: Seq<char>, r1: Seq<char>, r2: Seq<char>)
    requires
        all_ascii_digits(long),
        short.len() < long.len(),
        r1.len() > 0 && r1[0] == '_',
    ensures
        head + short + r1 != head + long + r2,
{
    let i = (head.len() + short.len()) as int;
    assert((head + short + r1)[i] == '_');
    assert((head + long + r2)[i] == long[short.len() as int]);
    assert(is_ascii_digit(long[short.len() as int]));
}

/// Two keys of codes' entries with the same tail that read alike name the
/// same numeric client id and the same code.
proof fn lemma_auth_key_parts(
    prefix: Seq<char>,
    c1: Seq<char>,
    code1: Seq<char>,
    c2: Seq<char>,
    code2: Seq<char>,
    tail: Seq<char>,
)
    requires
        all_ascii_digits(c1),
        all_ascii_digits(c2),
        namespaced(prefix, "AUTH_CLIENT_"@ + c1 + "_CODE_"@ + code1 + tail) == namespaced(
            prefix,
            "AUTH_CLIENT_"@ + c2 + "_CODE_"@ + code2 + tail,
        ),
    ensures
        c1 == c2,
        code1 == code2,
{
    reveal_strlit("_CODE_");
    let head = prefix + ":"@ + "AUTH_CLIENT_"@;
    let k1 = namespaced(prefix, "AUTH_CLIENT_"@ + c1 + "_CODE_"@ + code1 + tail);
    let k2 = namespaced(prefix, "AUTH_CLIENT_"@ + c2 + "_CODE_"@ + code2 + tail);
    let r1 = "_CODE_"@ + code1 + tail;
    let r2 = "_CODE_"@ + code2 + tail;
    assert(k1 =~= head + c1 + r1);
    assert(k2 =~= head + c2 + r2);
    assert(r1[0] == '_');
    assert(r2[0] == '_');
    if c1.len() < c2.len() {
        lemma_id_boundary(head, c1, c2, r1, r2);
    } else if c2.len() < c1.len() {
        lemma_id_boundary(head, c2, c1, r2, r1);
    }
    assert(c1 == k1.subrange(head.len() as int, (head.len() + c1.len()) as int));
    assert(c2 == k2.subrange(head.len() as int, (head.len() + c2.len()) as int));
    let start = head.len() + c1.len() + "_CODE_"@.len();
    assert(code1.len() == code2.len());
    assert(code1 == k1.subrange(start as int, (start + code1.len()) as int));
    assert(code2 == k2.subrange(start as int, (start + code2.len()) as int));
}

/// The key of a code's user id names the client it was granted to: two
/// numeric client ids that give the same key are the same id, with the same
/// code, so a code cannot be redeemed under another client's id.
pub proof fn code_key_binds_client(
    prefix: Seq<char>,
    c1: Seq<char>,
    code1: Seq<char>,
    c2: Seq<char>,
    code2: Seq<char>,
)
    requires
        all_ascii_digits(c1),
        all_ascii_digits(c2),
        auth_user_id_key_text(prefix, c1, code1) == auth_user_id_key_text(prefix, c2, code2),
    ensures
        c1 == c2,
        code1 == code2,
{
    lemma_auth_key_parts(prefix, c1, code1, c2, code2, "_USER_ID"@);
}

/// The key of a code's scopes names the client it was granted to, in the
/// same way as the key of its user id.
pub proof fn scopes_key_binds_client(
    prefix: Seq<char>,
    c1: Seq<char>,
    code1: Seq<char>,
    c2: Seq<char>,
    code2: Seq<char>,
)
    requires
        all_ascii_digits(c1),
        all_ascii_digits(c2),
        auth_scopes_key_text(prefix, c1, code1) == auth_scopes_key_text(prefix, c2, code2),
    ensures
        c1 == c2,
        code1 == code2,
{
    lemma_auth_key_parts(prefix, c1, code1, c2, code2, "_SCOPES"@);
}

} // verus!
