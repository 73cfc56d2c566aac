//! Policy parser: turns human-readable threshold strings such as `"50 ko"`
//! or `"2 days"` into canonical numeric values (bytes, seconds).

use vstd::prelude::*;
use vstd::string::StrSliceExecFns;
use crate::text::{is_digit, is_digit_char, spec_trim, str_eq, trim_str};

verus! {

/// The length of the leading run of decimal digits: the magnitude part of a
/// threshold string.
pub open spec fn digit_prefix_len(s: Seq<char>) -> nat
    decreases s.len(),
{
    if s.len() == 0 || !is_digit_char(s[0]) {
        0
    } else {
        1 + digit_prefix_len(s.drop_first())
    }
}

proof fn lemma_digit_prefix_len(s: Seq<char>, n: int)
    requires
        0 <= n <= s.len(),
        forall|j: int| 0 <= j < n ==> is_digit_char(s[j]),
        n < s.len() ==> !is_digit_char(s[n]),
    ensures
        digit_prefix_len(s) == n,
    decreases s.len(),
{
    if n > 0 {
        lemma_digit_prefix_len(s.drop_first(), n - 1);
    }
}

/// The numeric value of a run of decimal digits, most significant first.
pub open spec fn digits_value(s: Seq<char>) -> nat
    decreases s.len(),
{
    if s.len() == 0 {
        0
    } else {
        digits_value(s.drop_last()) * 10 + digit_value(s.last())
    }
}

/// The value of one decimal digit character.
pub open spec fn digit_value(c: char) -> nat {
    (c as u32 - '0' as u32) as nat
}

proof fn lemma_digits_value_monotonic(s: Seq<char>, i: int)
    requires
        0 <= i <= s.len(),
    ensures
        digits_value(s.take(i)) <= digits_value(s),
    decreases s.len(),
{
    if i < s.len() {
        assert(s.drop_last().take(i) =~= s.take(i));
        lemma_digits_value_monotonic(s.drop_last(), i);
    } else {
        assert(s.take(i) =~= s);
    }
}

/// Reads the value of the digit run `s[0..n]`; `None` exactly when the run
/// does not fit in the magnitude type.
fn parse_digits(s: &str, n: usize) -> (r: Option<u64>)
    requires
        n <= s@.len(),
        forall|j: int| 0 <= j < n ==> is_digit_char(s@[j]),
    ensures
        match r {
            Some(v) => digits_value(s@.take(n as int)) <= u64::MAX && v == digits_value(
                s@.take(n as int),
            ),
            None => digits_value(s@.take(n as int)) > u64::MAX,
        },
{
    let mut acc: u64 = 0;
    let mut i: usize = 0;
    while i < n
        invariant
            0 <= i <= n <= s@.len(),
            forall|j: int| 0 <= j < n ==> is_digit_char(s@[j]),
            acc == digits_value(s@.take(i as int)),
        decreases n - i,
    {
        let c = s.get_char(i);
        let d: u64 = (c as u32 - 48) as u64;
        proof {
            assert(s@.take(i + 1).drop_last() =~= s@.take(i as int));
            assert(s@.take(i + 1).last() == s@[i as int]);
        }
        let shifted = match acc.checked_mul(10) {
            Some(x) => x,
            None => {
                proof {
                    lemma_digits_value_monotonic(s@.take(n as int), i + 1);
                    assert(s@.take(n as int).take(i + 1) =~= s@.take(i + 1));
                }
                return None;
            },
        };
        acc = match shifted.checked_add(d) {
            Some(x) => x,
            None => {
                proof {
                    lemma_digits_value_monotonic(s@.take(n as int), i + 1);
                    assert(s@.take(n as int).take(i + 1) =~= s@.take(i + 1));
                }
                return None;
            },
        };
        i = i + 1;
    }
    proof {
        assert(s@.take(i as int) =~= s@.take(n as int));
    }
    Some(acc)
}

/// What one unit of a size threshold is worth in bytes; `None` for an
/// unrecognized unit token.
pub open spec fn size_unit_multiplier(u: Seq<char>) -> Option<u64> {
    if u == "b"@ {
        Some(1u64)
    } else if u == "kb"@ || u == "ko"@ {
        Some(1000u64)
    } else if u == "mb"@ || u == "mo"@ {
        Some(1000000u64)
    } else if u == "gb"@ || u == "go"@ {
        Some(1000000000u64)
    } else if u == "kib"@ {
        Some(1024u64)
    } else if u == "mib"@ {
        Some(1048576u64)
    } else if u == "gib"@ {
        Some(1073741824u64)
    } else {
        None
    }
}

/// What one unit of a duration threshold is worth in seconds; `None` for an
/// unrecognized unit token.
pub open spec fn duration_unit_multiplier(u: Seq<char>) -> Option<u64> {
    if u == "s"@ || u == "sec"@ || u == "secs"@ || u == "seconds"@ {
        Some(1u64)
    } else if u == "m"@ || u == "min"@ || u == "mins"@ || u == "minutes"@ {
        Some(60u64)
    } else if u == "h"@ || u == "hr"@ || u == "hrs"@ || u == "hours"@ {
        Some(3600u64)
    } else if u == "d"@ || u == "day"@ || u == "days"@ {
        Some(86400u64)
    } else {
        None
    }
}

fn match_size_unit(u: &str) -> (r: Option<u64>)
    ensures
        r == size_unit_multiplier(u@),
{
    if str_eq(u, "b") {
        Some(1)
    } else if str_eq(u, "kb") || str_eq(u, "ko") {
        Some(1000)
    } else if str_eq(u, "mb") || str_eq(u, "mo") {
        Some(1000000)
    } else if str_eq(u, "gb") || str_eq(u, "go") {
        Some(1000000000)
    } else if str_eq(u, "kib") {
        Some(1024)
    } else if str_eq(u, "mib") {
        Some(1048576)
    } else if str_eq(u, "gib") {
        Some(1073741824)
    } else {
        None
    }
}

fn match_duration_unit(u: &str) -> (r: Option<u64>)
    ensures
        r == duration_unit_multiplier(u@),
{
    if str_eq(u, "s") || str_eq(u, "sec") || str_eq(u, "secs") || str_eq(u, "seconds") {
        Some(1)
    } else if str_eq(u, "m") || str_eq(u, "min") || str_eq(u, "mins") || str_eq(u, "minutes") {
        Some(60)
    } else if str_eq(u, "h") || str_eq(u, "hr") || str_eq(u, "hrs") || str_eq(u, "hours") {
        Some(3600)
    } else if str_eq(u, "d") || str_eq(u, "day") || str_eq(u, "days") {
        Some(86400)
    } else {
        None
    }
}

/// The case-folded form of a string, as Unicode lowercasing produces it.
pub uninterp spec fn lower_of(s: Seq<char>) -> Seq<char>;

/// Relies on str::to_lowercase: the lowercase form depends on the input
/// characters alone, and an empty string stays empty.
#[verifier::external_body]
fn fold_lower(s: &str) -> (r: String)
    ensures
        r@ == lower_of(s@),
        s@.len() == 0 ==> r@.len() == 0,
{
    s.to_lowercase()
}

/// The value of a threshold string that has already been trimmed and
/// case-folded: a leading run of decimal digits, then a unit token looked up
/// in `unit_of`, combined as `magnitude * multiplier`. `None` when the digit
/// run is empty or its value overflows, when the unit token is unknown, or
/// when the product overflows.
pub open spec fn spec_parse_folded(t: Seq<char>, unit_of: spec_fn(Seq<char>) -> Option<u64>) -> Option<u64> {
    let n = digit_prefix_len(t) as int;
    let magnitude = digits_value(t.take(n));
    let unit = spec_trim(t.skip(n));
    if n == 0 {
        None
    } else if magnitude > u64::MAX {
        None
    } else {
        match unit_of(unit) {
            Some(m) => {
                if magnitude * m > u64::MAX {
                    None
                } else {
                    Some((magnitude * m) as u64)
                }
            },
            None => None,
        }
    }
}

/// The size threshold, in bytes, that a configuration string denotes:
/// the string is trimmed and case-folded, then read as a magnitude and a
/// size unit. `None` on malformed input.
pub open spec fn spec_parse_size(s: Seq<char>) -> Option<u64> {
    spec_parse_folded(lower_of(spec_trim(s)), |u: Seq<char>| size_unit_multiplier(u))
}

/// The duration threshold, in seconds, that a configuration string denotes.
/// `None` on malformed input.
pub open spec fn spec_parse_duration(s: Seq<char>) -> Option<u64> {
    spec_parse_folded(lower_of(spec_trim(s)), |u: Seq<char>| duration_unit_multiplier(u))
}

/// Parsing a size threshold is a pure function of the input text: equal
/// inputs always denote equal results, and parsing has no side effects.
pub proof fn lemma_parse_size_deterministic(s1: Seq<char>, s2: Seq<char>)
    requires
        s1 == s2,
    ensures
        spec_parse_size(s1) == spec_parse_size(s2),
{
}

/// Parsing a duration threshold is likewise a pure function of the input.
pub proof fn lemma_parse_duration_deterministic(s1: Seq<char>, s2: Seq<char>)
    requires
        s1 == s2,
    ensures
        spec_parse_duration(s1) == spec_parse_duration(s2),
{
}

/// Reads a trimmed, case-folded threshold string under the given unit table.
fn parse_folded(t: &str, size_units: bool) -> (r: Option<u64>)
    ensures
        size_units ==> r == spec_parse_folded(t@, |u: Seq<char>| size_unit_multiplier(u)),
        !size_units ==> r == spec_parse_folded(t@, |u: Seq<char>| duration_unit_multiplier(u)),
{
    let len = t.unicode_len();
    let mut n: usize = 0;
    while n < len && is_digit(t.get_char(n))
        invariant
            0 <= n <= len,
            len == t@.len(),
            forall|j: int| 0 <= j < n ==> is_digit_char(t@[j]),
        decreases len - n,
    {
        n = n + 1;
    }
    proof {
        lemma_digit_prefix_len(t@, n as int);
    }
    if n == 0 {
        return None;
    }
    let magnitude = match parse_digits(t, n) {
        Some(v) => v,
        None => {
            return None;
        },
    };
    let unit = trim_str(t.substring_char(n, len));
    let multiplier = if size_units {
        match_size_unit(unit)
    } else {
        match_duration_unit(unit)
    };
    match multiplier {
        Some(m) => magnitude.checked_mul(m),
        None => None,
    }
}

/// Reads a size threshold that is already trimmed and case-folded, such as
/// `"50 ko"`: the step of the parser after folding, with its result fixed
/// for every input.
pub fn parse_size_folded(t: &str) -> (r: Option<u64>)
    ensures
        r == spec_parse_folded(t@, |u: Seq<char>| size_unit_multiplier(u)),
{
    parse_folded(t, true)
}

/// Reads a duration threshold that is already trimmed and case-folded, such
/// as `"2 days"`: the step of the parser after folding, with its result
/// fixed for every input.
pub fn parse_duration_folded(t: &str) -> (r: Option<u64>)
    ensures
        r == spec_parse_folded(t@, |u: Seq<char>| duration_unit_multiplier(u)),
{
    parse_folded(t, false)
}

/// Parses a size threshold such as `"50 ko"` or `"10 MiB"` into a count of
/// bytes. Returns `None` exactly when the input is malformed: no leading
/// digits, a magnitude or product that overflows, or an unknown unit.
pub fn parse_file_size(size_str: &str) -> (r: Option<u64>)
    ensures
        r == spec_parse_size(size_str@),
{
    let trimmed = trim_str(size_str);
    let folded = fold_lower(trimmed);
    parse_size_folded(folded.as_str())
}

/// Parses a duration threshold such as `"2 days"` or `"30 min"` into a count
/// of seconds. Returns `None` exactly when the input is malformed.
pub fn parse_duration(duration_str: &str) -> (r: Option<u64>)
    ensures
        r == spec_parse_duration(duration_str@),
{
    let trimmed = trim_str(duration_str);
    let folded = fold_lower(trimmed);
    parse_duration_folded(folded.as_str())
}

} // verus!
