use vstd::prelude::*;
use validator::ValidateRegex;
use validator::ValidateUrl;

verus! {

/// Whether `c` has the Unicode `White_Space` property.
pub open spec fn is_white_space(c: char) -> bool {
    ||| c == '\t' || c == '\n' || c == '\x0B' || c == '\x0C' || c == '\r' || c == ' '
    ||| c == '\u{85}' || c == '\u{A0}' || c == '\u{1680}'
    ||| ('\u{2000}' <= c && c <= '\u{200A}')
    ||| c == '\u{2028}' || c == '\u{2029}' || c == '\u{202F}' || c == '\u{205F}'
    ||| c == '\u{3000}'
}

/// Whether the text is empty once surrounding white space is trimmed.
pub open spec fn blank(s: Seq<char>) -> bool {
    forall|i: int| 0 <= i < s.len() ==> is_white_space(#[trigger] s[i])
}

/// Whether `c` is an ASCII decimal digit.
pub open spec fn is_ascii_digit(c: char) -> bool {
    '0' <= c && c <= '9'
}

/// Whether `c` is an ASCII letter or digit.
pub open spec fn is_ascii_alphanumeric(c: char) -> bool {
    ||| is_ascii_digit(c)
    ||| ('a' <= c && c <= 'z')
    ||| ('A' <= c && c <= 'Z')
}

/// The lowercase hexadecimal digit of `d`, for `d < 16`.
pub open spec fn hex_digit(d: nat) -> char {
    if d < 10 {
        ((d + 48) as u8) as char
    } else {
        ((d + 87) as u8) as char
    }
}

/// The decimal digit of `d`, for `d < 10`.
pub open spec fn decimal_digit(d: nat) -> char {
    ((d + 48) as u8) as char
}

/// The decimal notation of `n`, without leading zeros.
pub open spec fn decimal_digits(n: nat) -> Seq<char>
    decreases n,
{
    if n < 10 {
        seq![decimal_digit(n)]
    } else {
        decimal_digits(n / 10).push(decimal_digit(n % 10))
    }
}

/// The lowercase hexadecimal notation of `n`, without leading zeros.
pub open spec fn hex_digits(n: nat) -> Seq<char>
    decreases n,
{
    if n < 16 {
        seq![hex_digit(n)]
    } else {
        hex_digits(n / 16).push(hex_digit(n % 16))
    }
}

/// Whether `url::Url::parse` accepts the text as an absolute URL.
pub uninterp spec fn parses_as_url(s: Seq<char>) -> bool;

/// Whether the text matches the regular expression `pattern`, as the regex
/// crate reads it.
pub uninterp spec fn regex_matches(pattern: Seq<char>, s: Seq<char>) -> bool;

/// The percent-encoding of the text's UTF-8 bytes.
pub uninterp spec fn url_encoded(s: Seq<char>) -> Seq<char>;

/// Whether `c` is left as it is by percent-encoding.
pub open spec fn is_unreserved(c: char) -> bool {
    is_ascii_alphanumeric(c) || c == '-' || c == '.' || c == '_' || c == '~'
}

/// The uppercase hexadecimal digit of `d`, for `d < 16`.
pub open spec fn upper_hex_digit(d: nat) -> char {
    if d < 10 {
        ((d + 48) as u8) as char
    } else {
        ((d + 55) as u8) as char
    }
}

/// The percent-encoding of ASCII text: unreserved characters stay, every
/// other one becomes `%` and two uppercase hexadecimal digits.
pub open spec fn percent_encoded_ascii(s: Seq<char>) -> Seq<char>
    decreases s.len(),
{
    if s.len() == 0 {
        Seq::<char>::empty()
    } else {
        let c = s.last();
        let rest = percent_encoded_ascii(s.drop_last());
        if is_unreserved(c) {
            rest.push(c)
        } else {
            rest + seq!['%', upper_hex_digit((c as u32 / 16) as nat), upper_hex_digit((c as u32 % 16) as nat)]
        }
    }
}

/// Whether the text is white space alone, as `str::trim` sees it.
pub fn is_blank(s: &str) -> (r: bool)
    ensures
        r == blank(s@),
{
    let n = s.unicode_len();
    let mut i: usize = 0;
    while i < n
        invariant
            n == s@.len(),
            i <= n,
            forall|j: int| 0 <= j < i ==> is_white_space(#[trigger] s@[j]),
        decreases n - i,
    {
        let c = s.get_char(i);
        let w = c == '\t' || c == '\n' || c == '\x0B' || c == '\x0C' || c == '\r' || c == ' '
            || c == '\u{85}' || c == '\u{A0}' || c == '\u{1680}' || ('\u{2000}' <= c && c
            <= '\u{200A}') || c == '\u{2028}' || c == '\u{2029}' || c == '\u{202F}' || c
            == '\u{205F}' || c == '\u{3000}';
        if !w {
            return false;
        }
        i = i + 1;
    }
    true
}

/// Relies on validator's `ValidateUrl::validate_url`, which accepts exactly
/// the strings that `url::Url::parse` parses.
#[verifier::external_body]
pub(crate) fn is_url(s: &String) -> (r: bool)
    ensures
        r == parses_as_url(s@),
{
    s.validate_url()
}

/// Relies on regex's `Regex::new`, whose error for a pattern that does not
/// compile becomes `None`, and on validator's `ValidateRegex::validate_regex`,
/// which calls `Regex::is_match`. The pattern `^\d+$` compiles; a text matches
/// it when it is one or more characters, each a Unicode decimal digit, and the
/// ASCII digits are among those.
#[verifier::external_body]
pub(crate) fn regex_match(pattern: &str, s: &String) -> (r: Option<bool>)
    ensures
        r matches Some(b) ==> b == regex_matches(pattern@, s@),
        pattern@ == "^\\d+$"@ ==> r is Some,
        pattern@ == "^\\d+$"@ ==> (r == Some(true) ==> s@.len() > 0),
        pattern@ == "^\\d+$"@ && s@.len() > 0 && (forall|i: int|
            0 <= i < s@.len() ==> is_ascii_digit(#[trigger] s@[i])) ==> r == Some(true),
{
    match regex::Regex::new(pattern) {
        Ok(re) => Some(s.validate_regex(re)),
        Err(_) => None,
    }
}

/// Relies on urlencoding's `encode`: every byte but ASCII letters, digits and
/// `-`, `_`, `.`, `~` becomes `%XX` with uppercase digits; an ASCII character
/// is one byte.
#[verifier::external_body]
pub(crate) fn url_encode(s: &str) -> (r: String)
    ensures
        r@ == url_encoded(s@),
        vstd::utf8::is_ascii_chars(s@) ==> r@ == percent_encoded_ascii(s@),
{
    urlencoding::encode(s).into_owned()
}

/// The one-character text of the digit `d`, for `d < 16`.
fn digit_text(d: u64) -> (r: &'static str)
    requires
        d < 16,
    ensures
        r@ == seq![hex_digit(d as nat)],
{
    proof {
        reveal_strlit("0");
        reveal_strlit("1");
        reveal_strlit("2");
        reveal_strlit("3");
        reveal_strlit("4");
        reveal_strlit("5");
        reveal_strlit("6");
        reveal_strlit("7");
        reveal_strlit("8");
        reveal_strlit("9");
        reveal_strlit("a");
        reveal_strlit("b");
        reveal_strlit("c");
        reveal_strlit("d");
        reveal_strlit("e");
        reveal_strlit("f");
    }
    match d {
        0 => "0",
        1 => "1",
        2 => "2",
        3 => "3",
        4 => "4",
        5 => "5",
        6 => "6",
        7 => "7",
        8 => "8",
        9 => "9",
        10 => "a",
        11 => "b",
        12 => "c",
        13 => "d",
        14 => "e",
        15 => "f",
        _ => "f",
    }
}

/// Writes `n` in decimal, as `format!("{}", n)` does.
pub fn decimal_text(n: u64) -> (r: String)
    ensures
        r@ == decimal_digits(n as nat),
{
    let mut m = n;
    let mut r = String::new();
    loop
        invariant
            decimal_digits(n as nat) == decimal_digits(m as nat) + r@,
        decreases m,
    {
        let d = digit_text(m % 10);
        assert(hex_digit((m % 10) as nat) == decimal_digit((m % 10) as nat));
        let mut t = d.to_owned();
        t.append(r.as_str());
        if m < 10 {
            assert(decimal_digits(m as nat) == seq![decimal_digit(m as nat)]);
            return t;
        }
        assert(decimal_digits(m as nat) == decimal_digits((m / 10) as nat).push(
            decimal_digit((m % 10) as nat),
        ));
        assert(decimal_digits(n as nat) =~= decimal_digits((m / 10) as nat) + t@);
        r = t;
        m = m / 10;
    }
}

/// Writes `n` in lowercase hexadecimal, as `format!("{:x}", n)` does.
pub fn hex_text(n: u64) -> (r: String)
    ensures
        r@ == hex_digits(n as nat),
{
    let mut m = n;
    let mut r = String::new();
    loop
        invariant
            hex_digits(n as nat) == hex_digits(m as nat) + r@,
        decreases m,
    {
        let d = digit_text(m % 16);
        let mut t = d.to_owned();
        t.append(r.as_str());
        if m < 16 {
            assert(hex_digits(m as nat) == seq![hex_digit(m as nat)]);
            return t;
        }
        assert(hex_digits(m as nat) == hex_digits((m / 16) as nat).push(hex_digit((m % 16) as nat)));
        assert(hex_digits(n as nat) =~= hex_digits((m / 16) as nat) + t@);
        r = t;
        m = m / 16;
    }
}

} // verus!
