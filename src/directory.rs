use vstd::prelude::*;
use crate::model::Client;
use crate::text::is_ascii_digit;

verus! {

/// The number that a run of ASCII digits denotes.
pub open spec fn digits_value(s: Seq<char>) -> nat
    decreases s.len(),
{
    if s.len() == 0 {
        0
    } else {
        digits_value(s.drop_last()) * 10 + ((s.last() as u32) - 48) as nat
    }
}

pub open spec fn all_ascii_digits(s: Seq<char>) -> bool {
    forall|i: int| 0 <= i < s.len() ==> is_ascii_digit(#[trigger] s[i])
}

/// The digits of a numeral, after an optional leading `+`.
pub open spec fn unsigned_part(s: Seq<char>) -> Seq<char> {
    if s.len() > 0 && s[0] == '+' {
        s.drop_first()
    } else {
        s
    }
}

/// The value of a decimal numeral as `str::parse::<u32>` reads it.
pub open spec fn parsed_u32(s: Seq<char>) -> Option<u32> {
    let d = unsigned_part(s);
    if d.len() > 0 && all_ascii_digits(d) && digits_value(d) <= u32::MAX {
        Some(digits_value(d) as u32)
    } else {
        None
    }
}

pub(crate) proof fn lemma_digits_value_grows(s: Seq<char>, i: int)
    requires
        0 <= i <= s.len(),
    ensures
        digits_value(s.take(i)) <= digits_value(s),
    decreases s.len(),
{
    if i < s.len() {
        assert(s.drop_last().take(i) == s.take(i));
        lemma_digits_value_grows(s.drop_last(), i);
    } else {
        assert(s.take(i) == s);
    }
}

/// Reads a client id as the persistent store keys it.
pub fn parse_client_id(s: &str) -> (r: Option<u32>)
    ensures
        r == parsed_u32(s@),
{
    let n = s.unicode_len();
    let mut i: usize = 0;
    if n > 0 && s.get_char(0) == '+' {
        i = 1;
    }
    let ghost d = unsigned_part(s@);
    let ghost off = i as int;
    assert(d == s@.subrange(off, n as int));
    if i == n {
        return None;
    }
    let mut value: u64 = 0;
    assert(d.take(0) == Seq::<char>::empty());
    while i < n
        invariant
            n == s@.len(),
            0 <= off <= i <= n,
            d.len() == n - off,
            d == unsigned_part(s@),
            d == s@.subrange(off, n as int),
            d.len() > 0,
            value == digits_value(d.take(i - off)),
            value <= u32::MAX,
            all_ascii_digits(d.take(i - off)),
        decreases n - i,
    {
        let c = s.get_char(i);
        let ghost k = i - off;
        assert(d.take(k + 1).drop_last() == d.take(k));
        assert(d.take(k + 1).last() == c);
        if !('0' <= c && c <= '9') {
            assert(d[k] == c);
            assert(!is_ascii_digit(d[k]));
            assert(!all_ascii_digits(d));
            return None;
        }
        let digit = (c as u32 - 48) as u64;
        value = value * 10 + digit;
        if value > u32::MAX as u64 {
            proof {
                assert(digits_value(d.take(k + 1)) == digits_value(d.take(k)) * 10 + ((c as u32)
                    - 48) as nat);
                lemma_digits_value_grows(d, k + 1);
            }
            return None;
        }
        assert(all_ascii_digits(d.take(k + 1))) by {
            assert forall|j: int| 0 <= j < k + 1 implies is_ascii_digit(#[trigger] d.take(k + 1)[j]) by {
                if j < k {
                    assert(d.take(k + 1)[j] == d.take(k)[j]);
                }
            }
        }
        i = i + 1;
    }
    assert(d.take(n - off) == d);
    Some(value as u32)
}

/// What to do after the cache's membership test for a client id.
#[derive(Debug, Clone, Copy, PartialEq, Eq)]
pub enum ExistenceStep {
    /// The client exists.
    Known,
    /// Ask the persistent store for the client with this id; when it is
    /// there, add the id to the cache's membership set.
    QueryStore(u32),
    /// The client does not exist.
    Unknown,
}

/// Decides the next step of the existence check from the cache's answer.
pub fn client_exists_step(in_cache: bool, client_id: &str) -> (r: ExistenceStep)
    ensures
        in_cache ==> r == ExistenceStep::Known,
        !in_cache ==> r == match parsed_u32(client_id@) {
            Some(n) => ExistenceStep::QueryStore(n),
            None => ExistenceStep::Unknown,
        },
{
    if in_cache {
        return ExistenceStep::Known;
    }
    match parse_client_id(client_id) {
        Some(n) => ExistenceStep::QueryStore(n),
        None => ExistenceStep::Unknown,
    }
}

/// What to do after reading a client's record from the cache.
#[derive(Debug, Clone, PartialEq, Eq)]
pub enum ResolveStep {
    /// The cache held the record.
    Cached(Client),
    /// Ask the persistent store for the record with this id; when it is
    /// there, cache it.
    QueryStore(u32),
    /// No such client.
    Absent,
}

/// Decides the next step of resolving a client from the cache's answer.
pub fn resolve_step(cached: Option<Client>, client_id: &str) -> (r: ResolveStep)
    ensures
        cached matches Some(c) ==> r == ResolveStep::Cached(c),
        cached is None ==> r == match parsed_u32(client_id@) {
            Some(n) => ResolveStep::QueryStore(n),
            None => ResolveStep::Absent,
        },
{
    match cached {
        Some(c) => ResolveStep::Cached(c),
        None => match parse_client_id(client_id) {
            Some(n) => ResolveStep::QueryStore(n),
            None => ResolveStep::Absent,
        },
    }
}

} // verus!
