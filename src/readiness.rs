//! The readiness-wait policy: how long to wait for the worker's endpoint, and
//! what one round of the wait decides.
use vstd::prelude::*;
use crate::text::{trim, trimmed};

verus! {

/// The ceiling of a packaged launch when none is configured: five minutes.
pub const PACKAGED_TIMEOUT_FALLBACK_MS: u64 = 300000;

/// The default ceiling of a development launch: twenty seconds.
pub const DEV_TIMEOUT_MS: u64 = 20000;

pub open spec fn is_digit(c: char) -> bool {
    '0' <= c && c <= '9'
}

pub open spec fn all_digits(s: Seq<char>) -> bool {
    s.len() > 0 && forall|i: int| 0 <= i < s.len() ==> is_digit(#[trigger] s[i])
}

/// The number that a string of decimal digits denotes.
pub open spec fn digits_value(s: Seq<char>) -> nat
    decreases s.len(),
{
    if s.len() == 0 {
        0
    } else {
        digits_value(s.drop_last()) * 10 + ((s.last() as u32) - ('0' as u32)) as nat
    }
}

/// The digits of an unsigned decimal literal, without its optional `+`.
pub open spec fn unsigned_digits(s: Seq<char>) -> Seq<char> {
    if s.len() > 0 && s[0] == '+' {
        s.drop_first()
    } else {
        s
    }
}

/// The `u64` that `s` denotes as an unsigned decimal literal, as `str::parse`
/// reads one: an optional `+`, then one or more digits, within range.
pub open spec fn parsed_u64(s: Seq<char>) -> Option<u64> {
    let d = unsigned_digits(s);
    if all_digits(d) && digits_value(d) <= u64::MAX {
        Some(digits_value(d) as u64)
    } else {
        None
    }
}

proof fn lemma_prefix_value_le(s: Seq<char>, k: int)
    requires
        0 <= k <= s.len(),
        forall|i: int| 0 <= i < s.len() ==> is_digit(#[trigger] s[i]),
    ensures
        digits_value(s.subrange(0, k)) <= digits_value(s),
    decreases s.len(),
{
    if k < s.len() {
        let t = s.drop_last();
        assert(t.subrange(0, k) =~= s.subrange(0, k));
        assert forall|i: int| 0 <= i < t.len() implies is_digit(#[trigger] t[i]) by {
            assert(t[i] == s[i]);
        }
        lemma_prefix_value_le(t, k);
    } else {
        assert(s.subrange(0, k) =~= s);
    }
}

/// Reads an unsigned decimal literal.
pub fn parse_u64(s: &str) -> (r: Option<u64>)
    ensures
        r == parsed_u64(s@),
{
    let n = s.unicode_len();
    let start: usize = if n > 0 && s.get_char(0) == '+' {
        1
    } else {
        0
    };
    let ghost d = s@.subrange(start as int, n as int);
    assert(d =~= unsigned_digits(s@));
    if start >= n {
        assert(d.len() == 0);
        return None;
    }
    let mut i: usize = start;
    while i < n
        invariant
            start <= i <= n,
            n == s@.len(),
            d == s@.subrange(start as int, n as int),
            d == unsigned_digits(s@),
            forall|k: int| start <= k < i ==> is_digit(#[trigger] s@[k]),
        decreases n - i,
    {
        let c = s.get_char(i);
        if !('0' <= c && c <= '9') {
            assert(d[i - start] == s@[i as int]);
            assert(!is_digit(d[i - start]));
            return None;
        }
        i = i + 1;
    }
    assert(forall|k: int| 0 <= k < d.len() ==> #[trigger] d[k] == s@[k + start]);
    let mut acc: u64 = 0;
    let mut i: usize = start;
    while i < n
        invariant
            start <= i <= n,
            n == s@.len(),
            d == s@.subrange(start as int, n as int),
            d == unsigned_digits(s@),
            all_digits(d),
            acc as nat == digits_value(d.subrange(0, i - start)),
        decreases n - i,
    {
        let c = s.get_char(i);
        assert(d[i - start] == s@[i as int]);
        assert(is_digit(d[i - start]));
        let digit: u64 = ((c as u32) - ('0' as u32)) as u64;
        let ghost p = d.subrange(0, i + 1 - start);
        assert(p.drop_last() =~= d.subrange(0, i - start));
        assert(p.last() == c);
        assert(digits_value(p) == acc * 10 + digit);
        if acc > (u64::MAX - digit) / 10 {
            proof {
                assert(digits_value(p) > u64::MAX) by (nonlinear_arith)
                    requires
                        digits_value(p) == acc * 10 + digit,
                        acc > (u64::MAX - digit) / 10,
                        digit <= 9,
                ;
                lemma_prefix_value_le(d, i + 1 - start);
            }
            return None;
        }
        assert(acc * 10 + digit <= u64::MAX) by (nonlinear_arith)
            requires
                acc <= (u64::MAX - digit) / 10,
                digit <= 9,
        ;
        acc = acc * 10 + digit;
        i = i + 1;
    }
    assert(d.subrange(0, n - start) =~= d);
    Some(acc)
}

/// The readiness ceiling in milliseconds. A configured positive value wins;
/// otherwise a packaged launch gets the five-minute fallback and a development
/// launch twenty seconds. A configured value that does not read as a number
/// counts as absent.
pub open spec fn effective_timeout_ms(packaged_mode: bool, raw: Option<Seq<char>>) -> u64 {
    match positive_override(raw) {
        Some(v) => v,
        None => if packaged_mode {
            PACKAGED_TIMEOUT_FALLBACK_MS
        } else {
            DEV_TIMEOUT_MS
        },
    }
}

/// The configured ceiling, when it reads as a positive number.
pub open spec fn positive_override(raw: Option<Seq<char>>) -> Option<u64> {
    match raw {
        Some(r) => match parsed_u64(trimmed(r)) {
            Some(v) => if v > 0 {
                Some(v)
            } else {
                None
            },
            None => None,
        },
        None => None,
    }
}

/// Computes the readiness ceiling from the launch mode and the configured
/// override, if any.
pub fn resolve_backend_timeout_ms(packaged_mode: bool, raw_override: Option<&str>) -> (r: u64)
    ensures
        r == effective_timeout_ms(
            packaged_mode,
            match raw_override {
                Some(s) => Some(s@),
                None => None,
            },
        ),
        r > 0,
{
    let configured: Option<u64> = match raw_override {
        Some(raw) => parse_u64(trim(raw)),
        None => None,
    };
    match configured {
        Some(v) => if v > 0 {
            return v;
        },
        None => {},
    }
    if packaged_mode {
        PACKAGED_TIMEOUT_FALLBACK_MS
    } else {
        DEV_TIMEOUT_MS
    }
}

/// Without a positive override a packaged launch waits at most five minutes
/// and a development launch twenty seconds; a configured positive value wins
/// in both modes. Every launch has a finite ceiling.
pub proof fn lemma_timeout_policy(packaged_mode: bool, raw: Option<Seq<char>>)
    ensures
        effective_timeout_ms(packaged_mode, raw) > 0,
        positive_override(raw) is None ==> effective_timeout_ms(true, raw)
            == PACKAGED_TIMEOUT_FALLBACK_MS && effective_timeout_ms(false, raw) == DEV_TIMEOUT_MS,
        positive_override(raw) is Some ==> effective_timeout_ms(packaged_mode, raw)
            == positive_override(raw)->Some_0,
{
}

} // verus!
