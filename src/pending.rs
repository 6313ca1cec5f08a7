use vstd::prelude::*;
use crate::directory::{all_ascii_digits, digits_value, lemma_digits_value_grows};
use crate::model::{opt_view, AuthorizeRequestData};
use crate::text::{decimal_digit, decimal_digits, decimal_text, is_ascii_digit};

verus! {

proof fn lemma_decimal_digit(d: nat)
    requires
        d < 10,
    ensures
        is_ascii_digit(decimal_digit(d)),
        (decimal_digit(d) as u32) - 48 == d,
{
}

/// Decimal notation reads back as the number it writes, with digits alone.
proof fn lemma_decimal_digits(n: nat)
    ensures
        decimal_digits(n).len() >= 1,
        all_ascii_digits(decimal_digits(n)),
        digits_value(decimal_digits(n)) == n,
    decreases n,
{
    if n < 10 {
        lemma_decimal_digit(n);
        assert(decimal_digits(n).drop_last() == Seq::<char>::empty());
        assert(digits_value(Seq::<char>::empty()) == 0);
        assert(digits_value(decimal_digits(n)) == 0 * 10 + ((decimal_digit(n) as u32) - 48) as nat);
    } else {
        lemma_decimal_digits(n / 10);
        lemma_decimal_digit(n % 10);
        let s = decimal_digits(n);
        assert(s.drop_last() == decimal_digits(n / 10));
        vstd::arithmetic::div_mod::lemma_fundamental_div_mod(n as int, 10);
        assert(digits_value(s) == digits_value(decimal_digits(n / 10)) * 10 + (n % 10));
        assert(all_ascii_digits(s)) by {
            assert forall|i: int| 0 <= i < s.len() implies is_ascii_digit(#[trigger] s[i]) by {
                if i < s.len() - 1 {
                    assert(s[i] == decimal_digits(n / 10)[i]);
                }
            }
        }
    }
}

/// A run of digits without a superfluous leading zero.
pub open spec fn canonical_digits(r: Seq<char>) -> bool {
    r.len() > 0 && all_ascii_digits(r) && (r.len() == 1 || r[0] != '0')
}

/// Decimal notation has no superfluous leading zero.
proof fn lemma_decimal_digits_canonical(n: nat)
    ensures
        canonical_digits(decimal_digits(n)),
    decreases n,
{
    lemma_decimal_digits(n);
    if n >= 10 {
        lemma_decimal_digits_canonical(n / 10);
        lemma_decimal_digits(n / 10);
        let s = decimal_digits(n);
        assert(s[0] == decimal_digits(n / 10)[0]);
        assert(s.len() > 1);
        if n / 10 < 10 {
            lemma_decimal_digit(n / 10);
            assert(decimal_digits(n / 10)[0] == decimal_digit(n / 10));
            assert(('0' as u32) == 48);
            assert(s[0] != '0');
        } else {
            lemma_decimal_digits(n / 100);
            assert(decimal_digits(n / 10).len() > 1);
        }
    }
}

/// A canonical run of digits is the decimal notation of its value.
proof fn lemma_canonical_is_decimal(r: Seq<char>)
    requires
        canonical_digits(r),
    ensures
        r == decimal_digits(digits_value(r)),
    decreases r.len(),
{
    let c = r.last();
    let d = ((c as u32) - 48) as nat;
    assert(is_ascii_digit(r[r.len() - 1]));
    lemma_decimal_digit(d);
    assert(decimal_digit(d) == c);
    if r.len() == 1 {
        assert(r.drop_last() == Seq::<char>::empty());
        assert(digits_value(Seq::<char>::empty()) == 0);
        assert(digits_value(r) == d);
        assert(r =~= seq![c]);
    } else {
        let q = r.drop_last();
        assert(canonical_digits(q)) by {
            assert forall|i: int| 0 <= i < q.len() implies is_ascii_digit(#[trigger] q[i]) by {
                assert(q[i] == r[i]);
            }
            assert(q[0] == r[0]);
        }
        lemma_canonical_is_decimal(q);
        lemma_digits_value_grows(q, 1);
        assert(q.take(1).drop_last() == Seq::<char>::empty());
        assert(digits_value(Seq::<char>::empty()) == 0);
        assert(q.take(1).last() == q[0]);
        assert(digits_value(q.take(1)) >= 1);
        let v = digits_value(r);
        assert(v == digits_value(q) * 10 + d);
        vstd::arithmetic::div_mod::lemma_fundamental_div_mod_converse(
            v as int,
            10,
            digits_value(q) as int,
            d as int,
        );
        assert(r =~= decimal_digits(digits_value(q)).push(c));
    }
}

/// A field of the cache format: its length in decimal, `:`, then its text.
pub open spec fn field_text(x: Seq<char>) -> Seq<char> {
    decimal_digits(x.len()) + ":"@ + x
}

/// An optional field: `-` when absent, `+` and the field when present.
pub open spec fn opt_field_text(o: Option<Seq<char>>) -> Seq<char> {
    match o {
        Some(x) => "+"@ + field_text(x),
        None => "-"@,
    }
}

/// The text under which a pending authorization request is cached.
pub open spec fn encoded_request(r: AuthorizeRequestData) -> Seq<char> {
    field_text(r.client_id@) + field_text(r.redirect_uri@) + field_text(r.scope@) + opt_field_text(
        opt_view(r.state),
    ) + opt_field_text(opt_view(r.response_type))
}

/// What a pending authorization request holds, as text.
pub open spec fn request_view(r: AuthorizeRequestData) -> (
    Seq<char>,
    Seq<char>,
    Seq<char>,
    Option<Seq<char>>,
    Option<Seq<char>>,
) {
    (r.client_id@, r.redirect_uri@, r.scope@, opt_view(r.state), opt_view(r.response_type))
}

pub open spec fn field_at(s: Seq<char>, pos: int, x: Seq<char>) -> bool {
    &&& 0 <= pos
    &&& pos + field_text(x).len() <= s.len()
    &&& s.subrange(pos, pos + field_text(x).len()) == field_text(x)
}

pub open spec fn opt_field_at(s: Seq<char>, pos: int, o: Option<Seq<char>>) -> bool {
    &&& 0 <= pos
    &&& pos + opt_field_text(o).len() <= s.len()
    &&& s.subrange(pos, pos + opt_field_text(o).len()) == opt_field_text(o)
}

fn push_field(out: &mut String, x: &str)
    ensures
        final(out)@ == old(out)@ + field_text(x@),
{
    let len = x.unicode_len();
    let d = decimal_text(len as u64);
    out.append(d.as_str());
    out.append(":");
    out.append(x);
}

fn push_opt_field(out: &mut String, o: &Option<String>)
    ensures
        final(out)@ == old(out)@ + opt_field_text(opt_view(*o)),
{
    match o {
        Some(x) => {
            out.append("+");
            push_field(out, x.as_str());
        },
        None => out.append("-"),
    }
}

/// Writes a pending authorization request in the cache format.
pub fn encode_request(r: &AuthorizeRequestData) -> (s: String)
    ensures
        s@ == encoded_request(*r),
{
    let mut s = String::new();
    push_field(&mut s, r.client_id.as_str());
    push_field(&mut s, r.redirect_uri.as_str());
    push_field(&mut s, r.scope.as_str());
    push_opt_field(&mut s, &r.state);
    push_opt_field(&mut s, &r.response_type);
    s
}

fn digit_at(s: &str, i: usize) -> (r: bool)
    requires
        i < s@.len(),
    ensures
        r == is_ascii_digit(s@[i as int]),
{
    let c = s.get_char(i);
    '0' <= c && c <= '9'
}

/// Within a field that starts at `pos`, a run of digits from `pos` is a
/// prefix of the field's length.
proof fn lemma_digit_run(s: Seq<char>, pos: int, i: int, x: Seq<char>)
    requires
        field_at(s, pos, x),
        pos <= i <= s.len(),
        all_ascii_digits(s.subrange(pos, i)),
    ensures
        i - pos <= decimal_digits(x.len()).len(),
        s.subrange(pos, i) == decimal_digits(x.len()).take(i - pos),
{
    reveal_strlit(":");
    let d = decimal_digits(x.len());
    let f = field_text(x);
    let m = d.len() as int;
    assert(f[m] == ':');
    assert(s[pos + m] == f[m]);
    if i - pos > m {
        assert(s.subrange(pos, i)[m] == s[pos + m]);
        assert(!is_ascii_digit(':'));
    }
    assert(s.subrange(pos, i) == f.take(i - pos));
    assert(f.take(i - pos) == d.take(i - pos));
}

fn read_field(s: &str, n: usize, pos: usize) -> (r: Option<(String, usize)>)
    requires
        n == s@.len(),
        pos <= n,
    ensures
        r matches Some((_, p)) ==> pos <= p <= n,
        r matches Some((y, p)) ==> field_at(s@, pos as int, y@) && p == pos + field_text(y@).len(),
        forall|x: Seq<char>|
            #[trigger] field_at(s@, pos as int, x) ==> (r matches Some((y, p)) && y@ == x && p
                == pos + field_text(x).len()),
{
    proof {
        reveal_strlit(":");
    }
    let mut i: usize = pos;
    let mut value: u128 = 0;
    assert(s@.subrange(pos as int, pos as int) == Seq::<char>::empty());
    while i < n && digit_at(s, i)
        invariant
            n == s@.len(),
            pos <= i <= n,
            all_ascii_digits(s@.subrange(pos as int, i as int)),
            value == digits_value(s@.subrange(pos as int, i as int)),
            value <= n,
        decreases n - i,
    {
        let c = s.get_char(i);
        let ghost run = s@.subrange(pos as int, i + 1);
        assert(run.drop_last() == s@.subrange(pos as int, i as int));
        assert(run.last() == c);
        assert(all_ascii_digits(run)) by {
            assert forall|j: int| 0 <= j < run.len() implies is_ascii_digit(#[trigger] run[j]) by {
                if j < run.len() - 1 {
                    assert(run[j] == s@.subrange(pos as int, i as int)[j]);
                }
            }
        }
        let v = value * 10 + (c as u32 - 48) as u128;
        assert(v == digits_value(run));
        if v > n as u128 {
            assert forall|x: Seq<char>| #[trigger] field_at(s@, pos as int, x) implies false by {
                lemma_digit_run(s@, pos as int, i + 1, x);
                lemma_decimal_digits(x.len());
                lemma_digits_value_grows(decimal_digits(x.len()), i + 1 - pos);
            }
            return None;
        }
        value = v;
        i = i + 1;
    }
    assert forall|x: Seq<char>| #[trigger] field_at(s@, pos as int, x) implies i == pos
        + decimal_digits(x.len()).len() && value == x.len() by {
        lemma_digit_run(s@, pos as int, i as int, x);
        lemma_decimal_digits(x.len());
        let d = decimal_digits(x.len());
        if i - pos < d.len() {
            assert(s@[i as int] == s@.subrange(pos as int, pos + field_text(x).len())[i - pos]);
            assert(field_text(x)[i - pos] == d[i - pos]);
        }
        assert(d.take(d.len() as int) == d);
    }
    if i == pos || i == n {
        assert forall|x: Seq<char>| #[trigger] field_at(s@, pos as int, x) implies false by {
            lemma_decimal_digits(x.len());
            let m = decimal_digits(x.len()).len() as int;
            assert(field_text(x)[m] == ':');
            assert(s@[pos + m] == field_text(x)[m]);
        }
        return None;
    }
    if s.get_char(i) != ':' {
        assert forall|x: Seq<char>| #[trigger] field_at(s@, pos as int, x) implies false by {
            let m = decimal_digits(x.len()).len() as int;
            assert(field_text(x)[m] == ':');
            assert(s@[pos + m] == field_text(x)[m]);
        }
        return None;
    }
    if i - pos >= 2 && s.get_char(pos) == '0' {
        assert forall|x: Seq<char>| #[trigger] field_at(s@, pos as int, x) implies false by {
            lemma_decimal_digits_canonical(x.len());
            lemma_digit_run(s@, pos as int, i as int, x);
            let d = decimal_digits(x.len());
            assert(d.take(d.len() as int) == d);
            assert(s@.subrange(pos as int, i as int)[0] == s@[pos as int]);
        }
        return None;
    }
    let len = value as usize;
    if len > n - i - 1 {
        return None;
    }
    let start = i + 1;
    let y = s.substring_char(start, start + len).to_owned();
    assert forall|x: Seq<char>| #[trigger] field_at(s@, pos as int, x) implies y@ == x by {
        let m = decimal_digits(x.len()).len() as int;
        let f = field_text(x);
        assert forall|j: int| 0 <= j < x.len() implies y@[j] == x[j] by {
            assert(y@[j] == s@[start + j]);
            assert(s@[start + j] == f[m + 1 + j]);
        }
        assert(y@ =~= x);
    }
    proof {
        let run = s@.subrange(pos as int, i as int);
        assert(canonical_digits(run)) by {
            if run.len() >= 2 {
                assert(run[0] == s@[pos as int]);
            }
        }
        lemma_canonical_is_decimal(run);
        assert(s@.subrange(pos as int, start + len) =~= field_text(y@));
    }
    Some((y, start + len))
}

fn read_opt_field(s: &str, n: usize, pos: usize) -> (r: Option<(Option<String>, usize)>)
    requires
        n == s@.len(),
        pos <= n,
    ensures
        r matches Some((_, p)) ==> pos <= p <= n,
        r matches Some((y, p)) ==> opt_field_at(s@, pos as int, opt_view(y)) && p == pos
            + opt_field_text(opt_view(y)).len(),
        forall|o: Option<Seq<char>>|
            #[trigger] opt_field_at(s@, pos as int, o) ==> (r matches Some((y, p)) && opt_view(y)
                == o && p == pos + opt_field_text(o).len()),
{
    proof {
        reveal_strlit("+");
        reveal_strlit("-");
    }
    if pos == n {
        assert forall|o: Option<Seq<char>>| #[trigger] opt_field_at(s@, pos as int, o) implies false by {
            assert(opt_field_text(o).len() >= 1);
        }
        return None;
    }
    let c = s.get_char(pos);
    assert forall|o: Option<Seq<char>>| #[trigger] opt_field_at(s@, pos as int, o) implies c == (
    if o is Some {
        '+'
    } else {
        '-'
    }) by {
        assert(s@[pos as int] == opt_field_text(o)[0]);
    }
    if c == '-' {
        assert(s@.subrange(pos as int, pos + 1) =~= "-"@);
        return Some((None, pos + 1));
    }
    if c != '+' {
        return None;
    }
    let r = read_field(s, n, pos + 1);
    assert forall|o: Option<Seq<char>>| #[trigger] opt_field_at(s@, pos as int, o) implies (o is Some
        && field_at(s@, pos + 1, o->0)) by {
        let x = o->0;
        let t = opt_field_text(o);
        assert(s@.subrange(pos + 1, pos + 1 + field_text(x).len()) =~= t.subrange(
            1,
            t.len() as int,
        ));
        assert(t.subrange(1, t.len() as int) =~= field_text(x));
    }
    match r {
        Some((y, p)) => {
            assert(s@.subrange(pos as int, p as int) =~= "+"@ + field_text(y@)) by {
                assert(s@.subrange(pos + 1, p as int) == field_text(y@));
            }
            Some((Some(y), p))
        },
        None => None,
    }
}

/// The fields of an encoded request stand one after another.
proof fn lemma_encoded_parts(r: AuthorizeRequestData, s: Seq<char>)
    requires
        encoded_request(r) == s,
    ensures
        ({
            let a = field_text(r.client_id@).len() as int;
            let b = field_text(r.redirect_uri@).len() as int;
            let c = field_text(r.scope@).len() as int;
            let d = opt_field_text(opt_view(r.state)).len() as int;
            let e = opt_field_text(opt_view(r.response_type)).len() as int;
            &&& field_at(s, 0, r.client_id@)
            &&& field_at(s, a, r.redirect_uri@)
            &&& field_at(s, a + b, r.scope@)
            &&& opt_field_at(s, a + b + c, opt_view(r.state))
            &&& opt_field_at(s, a + b + c + d, opt_view(r.response_type))
            &&& s.len() == a + b + c + d + e
        }),
{
    let a = field_text(r.client_id@);
    let b = field_text(r.redirect_uri@);
    let c = field_text(r.scope@);
    let d = opt_field_text(opt_view(r.state));
    let e = opt_field_text(opt_view(r.response_type));
    let la = a.len() as int;
    let lb = b.len() as int;
    let lc = c.len() as int;
    let ld = d.len() as int;
    let le = e.len() as int;
    assert(s.subrange(0, la) =~= a);
    assert(s.subrange(la, la + lb) =~= b);
    assert(s.subrange(la + lb, la + lb + lc) =~= c);
    assert(s.subrange(la + lb + lc, la + lb + lc + ld) =~= d);
    assert(s.subrange(la + lb + lc + ld, la + lb + lc + ld + le) =~= e);
}

/// At a given place, the text holds at most one field.
proof fn lemma_field_unique(s: Seq<char>, pos: int, x: Seq<char>, y: Seq<char>)
    requires
        field_at(s, pos, x),
        field_at(s, pos, y),
    ensures
        x == y,
{
    reveal_strlit(":");
    let dx = decimal_digits(x.len());
    let dy = decimal_digits(y.len());
    lemma_decimal_digits(x.len());
    lemma_decimal_digits(y.len());
    let mx = dx.len() as int;
    let my = dy.len() as int;
    assert(s.subrange(pos, pos + mx) =~= dx) by {
        assert forall|j: int| 0 <= j < mx implies s.subrange(pos, pos + mx)[j] == dx[j] by {
            assert(s[pos + j] == field_text(x)[j]);
        }
    }
    assert(s.subrange(pos, pos + my) =~= dy) by {
        assert forall|j: int| 0 <= j < my implies s.subrange(pos, pos + my)[j] == dy[j] by {
            assert(s[pos + j] == field_text(y)[j]);
        }
    }
    lemma_digit_run(s, pos, pos + mx, y);
    lemma_digit_run(s, pos, pos + my, x);
    assert(dy.take(my) == dy);
    assert(dx == dy);
    assert(x.len() == y.len());
    assert(x =~= y) by {
        assert forall|j: int| 0 <= j < x.len() implies x[j] == y[j] by {
            assert(s[pos + mx + 1 + j] == s.subrange(pos, pos + field_text(x).len())[mx + 1 + j]);
            assert(s[pos + mx + 1 + j] == s.subrange(pos, pos + field_text(y).len())[mx + 1 + j]);
        }
    }
}

/// At a given place, the text holds at most one optional field.
proof fn lemma_opt_field_unique(s: Seq<char>, pos: int, x: Option<Seq<char>>, y: Option<Seq<char>>)
    requires
        opt_field_at(s, pos, x),
        opt_field_at(s, pos, y),
    ensures
        x == y,
{
    reveal_strlit("+");
    reveal_strlit("-");
    assert(s[pos] == opt_field_text(x)[0]);
    assert(s[pos] == opt_field_text(y)[0]);
    if x is Some && y is Some {
        let tx = opt_field_text(x);
        let ty = opt_field_text(y);
        assert(s.subrange(pos + 1, pos + 1 + field_text(x->0).len()) =~= tx.subrange(1, tx.len() as int));
        assert(s.subrange(pos + 1, pos + 1 + field_text(y->0).len()) =~= ty.subrange(1, ty.len() as int));
        assert(tx.subrange(1, tx.len() as int) =~= field_text(x->0));
        assert(ty.subrange(1, ty.len() as int) =~= field_text(y->0));
        lemma_field_unique(s, pos + 1, x->0, y->0);
    }
}

/// The cache format loses nothing: two requests written as the same text
/// hold the same values, so reading back what was written gives the
/// request that was written, with or without its optional fields.
pub proof fn pending_encoding_is_faithful(a: AuthorizeRequestData, b: AuthorizeRequestData)
    requires
        encoded_request(a) == encoded_request(b),
    ensures
        request_view(a) == request_view(b),
{
    let s = encoded_request(a);
    lemma_encoded_parts(a, s);
    lemma_encoded_parts(b, s);
    let la = field_text(a.client_id@).len() as int;
    let lb = field_text(a.redirect_uri@).len() as int;
    let lc = field_text(a.scope@).len() as int;
    let ld = opt_field_text(opt_view(a.state)).len() as int;
    lemma_field_unique(s, 0, a.client_id@, b.client_id@);
    lemma_field_unique(s, la, a.redirect_uri@, b.redirect_uri@);
    lemma_field_unique(s, la + lb, a.scope@, b.scope@);
    lemma_opt_field_unique(s, la + lb + lc, opt_view(a.state), opt_view(b.state));
    lemma_opt_field_unique(s, la + lb + lc + ld, opt_view(a.response_type), opt_view(b.response_type));
}

/// Reads a pending authorization request back from the cache format. A
/// request comes back exactly when the text is the encoding of one; the text
/// that `encode_request` wrote for a request gives back that request, optional
/// fields included.
pub fn decode_request(s: &str) -> (res: Option<AuthorizeRequestData>)
    ensures
        res matches Some(d) ==> encoded_request(d) == s@,
        forall|r: AuthorizeRequestData|
            #[trigger] encoded_request(r) == s@ ==> (res matches Some(d) && request_view(d)
                == request_view(r)),
{
    let n = s.unicode_len();
    let (client_id, end_client) = match read_field(s, n, 0) {
        Some(f) => f,
        None => {
            assert forall|r: AuthorizeRequestData| #[trigger] encoded_request(r) == s@ implies false by {
                lemma_encoded_parts(r, s@);
            }
            return None;
        },
    };
    let (redirect_uri, end_uri) = match read_field(s, n, end_client) {
        Some(f) => f,
        None => {
            assert forall|r: AuthorizeRequestData| #[trigger] encoded_request(r) == s@ implies false by {
                lemma_encoded_parts(r, s@);
            }
            return None;
        },
    };
    let (scope, end_scope) = match read_field(s, n, end_uri) {
        Some(f) => f,
        None => {
            assert forall|r: AuthorizeRequestData| #[trigger] encoded_request(r) == s@ implies false by {
                lemma_encoded_parts(r, s@);
            }
            return None;
        },
    };
    let (state, end_state) = match read_opt_field(s, n, end_scope) {
        Some(f) => f,
        None => {
            assert forall|r: AuthorizeRequestData| #[trigger] encoded_request(r) == s@ implies false by {
                lemma_encoded_parts(r, s@);
            }
            return None;
        },
    };
    let (response_type, end_type) = match read_opt_field(s, n, end_state) {
        Some(f) => f,
        None => {
            assert forall|r: AuthorizeRequestData| #[trigger] encoded_request(r) == s@ implies false by {
                lemma_encoded_parts(r, s@);
            }
            return None;
        },
    };
    if end_type != n {
        assert forall|r: AuthorizeRequestData| #[trigger] encoded_request(r) == s@ implies false by {
            lemma_encoded_parts(r, s@);
        }
        return None;
    }
    let d = AuthorizeRequestData { client_id, redirect_uri, scope, state, response_type };
    assert forall|r: AuthorizeRequestData| #[trigger] encoded_request(r) == s@ implies request_view(d)
        == request_view(r) by {
        lemma_encoded_parts(r, s@);
    }
    assert(s@ =~= s@.subrange(0, end_client as int) + s@.subrange(end_client as int, end_uri as int) + s@.subrange(
        end_uri as int,
        end_scope as int,
    ) + s@.subrange(end_scope as int, end_state as int) + s@.subrange(end_state as int, end_type as int));
    Some(d)
}

} // verus!
