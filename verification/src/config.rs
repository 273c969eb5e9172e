//! Where the HTTP server binds: `TAURI_DEBUG_HOST` (default `127.0.0.1`) and
//! `TAURI_DEBUG_PORT` (default `1421`, also when the value is not a port
//! number).

use vstd::prelude::*;

verus! {

/// The port used when `TAURI_DEBUG_PORT` is unset or not a port number.
pub const DEFAULT_PORT: u16 = 1421;

/// The host used when `TAURI_DEBUG_HOST` is unset.
pub const DEFAULT_HOST: &'static str = "127.0.0.1";

pub open spec fn is_digit(c: char) -> bool {
    '0' <= c && c <= '9'
}

/// The number a string of decimal digits denotes.
pub open spec fn digits_value(s: Seq<char>) -> int
    decreases s.len(),
{
    if s.len() == 0 {
        0
    } else {
        digits_value(s.drop_last()) * 10 + (s.last() as int - '0' as int)
    }
}

/// `s` without one leading `+`.
pub open spec fn unsigned_part(s: Seq<char>) -> Seq<char> {
    if s.len() > 0 && s[0] == '+' {
        s.drop_first()
    } else {
        s
    }
}

/// Every character of `s` is a decimal digit.
pub open spec fn all_digits(s: Seq<char>) -> bool {
    forall|i: int| 0 <= i < s.len() ==> is_digit(#[trigger] s[i])
}

/// What `u16`'s `FromStr` accepts: an optional `+`, then one or more decimal
/// digits denoting a number no greater than `u16::MAX`; nothing else (no
/// sign `-`, no spaces).
pub open spec fn parse_u16_spec(s: Seq<char>) -> Option<u16> {
    let d = unsigned_part(s);
    if d.len() > 0 && all_digits(d) && digits_value(d) <= u16::MAX {
        Some(digits_value(d) as u16)
    } else {
        None
    }
}

/// A digit string's value is at least the value of any of its prefixes.
proof fn lemma_digits_value_grows(s: Seq<char>, i: int)
    requires
        0 <= i <= s.len(),
        forall|k: int| 0 <= k < s.len() ==> is_digit(#[trigger] s[k]),
    ensures
        digits_value(s.take(i)) <= digits_value(s),
        digits_value(s.take(i)) >= 0,
    decreases s.len() - i,
{
    lemma_digits_value_nonneg(s.take(i));
    if i < s.len() {
        lemma_digits_value_grows(s, i + 1);
        assert(s.take(i + 1).drop_last() =~= s.take(i));
        assert(is_digit(s[i]));
    } else {
        assert(s.take(i) =~= s);
    }
}

proof fn lemma_digits_value_nonneg(s: Seq<char>)
    requires
        forall|k: int| 0 <= k < s.len() ==> is_digit(#[trigger] s[k]),
    ensures
        digits_value(s) >= 0,
    decreases s.len(),
{
    if s.len() > 0 {
        lemma_digits_value_nonneg(s.drop_last());
        assert(is_digit(s[s.len() - 1]));
    }
}

/// The decimal digit character for `d` (0 to 9): `'0'` plus `d`.
pub open spec fn digit_char(d: nat) -> char {
    ((48 + d) as u32) as char
}

/// `n` written in decimal, without leading zeros.
pub open spec fn decimal_text(n: nat) -> Seq<char>
    decreases n,
{
    if n < 10 {
        seq![digit_char(n)]
    } else {
        decimal_text(n / 10).push(digit_char(n % 10))
    }
}

/// Every port number written in decimal parses to itself, as `u16`'s
/// `FromStr` gives it: `"9000"` is port 9000. A `+` in front changes
/// nothing; a number above `u16::MAX` is refused.
pub proof fn law_decimal_ports_parse(n: nat)
    ensures
        n <= u16::MAX ==> parse_u16_spec(decimal_text(n)) == Some(n as u16),
        n <= u16::MAX ==> parse_u16_spec(seq!['+'] + decimal_text(n)) == Some(n as u16),
        n > u16::MAX ==> parse_u16_spec(decimal_text(n)) is None,
{
    lemma_decimal_text(n);
    let t = decimal_text(n);
    assert(unsigned_part(t) == t);
    assert((seq!['+'] + t).drop_first() =~= t);
}

/// Only decimal digits parse: a string that parses is, after at most one
/// leading `+`, a non-empty run of the characters `'0'` to `'9'` whose
/// decimal value is the port.
pub proof fn law_only_digit_strings_parse(s: Seq<char>)
    ensures
        parse_u16_spec(s) is Some ==> ({
            let d = if s.len() > 0 && s[0] == '+' {
                s.drop_first()
            } else {
                s
            };
            &&& d.len() > 0
            &&& forall|i: int| 0 <= i < d.len() ==> '0' <= #[trigger] d[i] && d[i] <= '9'
            &&& parse_u16_spec(s) == Some(digits_value(d) as u16)
        }),
{
}

proof fn lemma_decimal_text(n: nat)
    ensures
        decimal_text(n).len() > 0,
        all_digits(decimal_text(n)),
        digits_value(decimal_text(n)) == n,
        decimal_text(n)[0] != '+',
    decreases n,
{
    if n < 10 {
        assert(digit_char(n) as int == 48 + n);
        assert(seq![digit_char(n)].drop_last() =~= Seq::<char>::empty());
        assert(digits_value(Seq::<char>::empty()) == 0);
        assert(digits_value(seq![digit_char(n)]) == n);
    } else {
        lemma_decimal_text(n / 10);
        let p = decimal_text(n / 10);
        let t = p.push(digit_char(n % 10));
        assert(digit_char(n % 10) as int == 48 + n % 10);
        assert(t.drop_last() =~= p);
        assert(t[0] == p[0]);
        assert forall|i: int| 0 <= i < t.len() implies is_digit(#[trigger] t[i]) by {
            if i < p.len() {
                assert(t[i] == p[i]);
            }
        }
        assert(digits_value(t) == (n / 10) * 10 + n % 10);
        assert((n / 10) * 10 + n % 10 == n) by (nonlinear_arith);
    }
}

/// Parses a port number as `str::parse::<u16>` does.
pub fn parse_port(s: &str) -> (r: Option<u16>)
    ensures
        r == parse_u16_spec(s@),
{
    let n = s.unicode_len();
    let mut start: usize = 0;
    if n > 0 {
        if s.get_char(0) == '+' {
            start = 1;
        }
    }
    let ghost d = unsigned_part(s@);
    assert(d =~= s@.skip(start as int));
    if start == n {
        return None;
    }
    let mut acc: u32 = 0;
    let mut i: usize = start;
    assert(d.take(0) =~= Seq::<char>::empty());
    while i < n
        invariant
            n == s@.len(),
            start <= i <= n,
            d =~= s@.skip(start as int),
            d == unsigned_part(s@),
            forall|k: int| 0 <= k < i - start ==> is_digit(#[trigger] d[k]),
            acc as int == digits_value(d.take(i - start)),
            acc <= u16::MAX,
        decreases n - i,
    {
        let c = s.get_char(i);
        assert(d[i - start] == c);
        if c < '0' || c > '9' {
            assert(!is_digit(d[i - start]));
            return None;
        }
        let digit = (c as u32) - ('0' as u32);
        assert(d.take(i - start + 1).drop_last() =~= d.take(i - start));
        acc = acc * 10 + digit;
        i = i + 1;
        if acc > 65535 {
            proof {
                if all_digits(d) {
                    lemma_digits_value_grows(d, i - start);
                }
            }
            return None;
        }
    }
    assert(d.take(i - start) =~= d);
    Some(acc as u16)
}

} // verus!

verus! {

/// The port to bind: `TAURI_DEBUG_PORT` when it holds a port number, `1421`
/// otherwise.
pub fn bind_port(env_port: Option<&str>) -> (r: u16)
    ensures
        r == (match env_port {
            Some(p) => match parse_u16_spec(p@) {
                Some(v) => v,
                None => DEFAULT_PORT,
            },
            None => DEFAULT_PORT,
        }),
{
    match env_port {
        Some(p) => match parse_port(p) {
            Some(v) => v,
            None => DEFAULT_PORT,
        },
        None => DEFAULT_PORT,
    }
}

/// The host to bind: `TAURI_DEBUG_HOST` when set, `127.0.0.1` otherwise.
pub fn bind_host(env_host: Option<String>) -> (r: String)
    ensures
        r@ == (match env_host {
            Some(h) => h@,
            None => DEFAULT_HOST@,
        }),
{
    match env_host {
        Some(h) => h,
        None => DEFAULT_HOST.to_owned(),
    }
}

} // verus!
