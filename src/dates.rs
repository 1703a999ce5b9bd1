//! Timestamp parsing for the three export dialects.  Every result is in
//! whole seconds since the Unix epoch, UTC.
use vstd::prelude::*;

use crate::text::{trim, trim_of};

verus! {

/// What `chrono::NaiveDateTime::parse_from_str` yields for a text and a
/// pattern, read as UTC.
pub uninterp spec fn naive_time_of(s: Seq<char>, fmt: Seq<char>) -> Option<i64>;

/// What `chrono::DateTime::parse_from_rfc3339` yields for a text.
pub uninterp spec fn rfc3339_time_of(s: Seq<char>) -> Option<i64>;

/// What `chrono::DateTime::parse_from_str` (a pattern with an offset) yields
/// for a text and a pattern.
pub uninterp spec fn zoned_time_of(s: Seq<char>, fmt: Seq<char>) -> Option<i64>;

/// Relies on `chrono::NaiveDateTime::parse_from_str`: the instant that the
/// text denotes under the pattern, taken as UTC, or `None`.
#[verifier::external_body]
pub(crate) fn parse_naive(s: &str, fmt: &str) -> (r: Option<i64>)
    ensures
        r == naive_time_of(s@, fmt@),
{
    chrono::NaiveDateTime::parse_from_str(s, fmt).ok().map(|dt| dt.and_utc().timestamp())
}

/// Relies on `chrono::DateTime::parse_from_rfc3339`: the instant, or `None`.
#[verifier::external_body]
pub(crate) fn parse_rfc3339(s: &str) -> (r: Option<i64>)
    ensures
        r == rfc3339_time_of(s@),
{
    chrono::DateTime::parse_from_rfc3339(s).ok().map(|dt| dt.timestamp())
}

/// Relies on `chrono::DateTime::parse_from_str`: the instant that the text
/// denotes under a pattern with an offset, or `None`.
#[verifier::external_body]
pub(crate) fn parse_zoned(s: &str, fmt: &str) -> (r: Option<i64>)
    ensures
        r == zoned_time_of(s@, fmt@),
{
    chrono::DateTime::parse_from_str(s, fmt).ok().map(|dt| dt.timestamp())
}

/// `s` without its leading occurrences of `c`.
pub open spec fn strip_front(s: Seq<char>, c: char) -> Seq<char>
    decreases s.len(),
{
    if s.len() > 0 && s[0] == c {
        strip_front(s.drop_first(), c)
    } else {
        s
    }
}

/// `s` without its trailing occurrences of `c`.
pub open spec fn strip_back(s: Seq<char>, c: char) -> Seq<char>
    decreases s.len(),
{
    if s.len() > 0 && s.last() == c {
        strip_back(s.drop_last(), c)
    } else {
        s
    }
}

/// `s` without leading and trailing occurrences of `c`, as
/// `str::trim_matches` with a character.
pub open spec fn strip_char(s: Seq<char>, c: char) -> Seq<char> {
    strip_back(strip_front(s, c), c)
}

/// Removes leading and trailing occurrences of `c`.
pub fn trim_char(s: &str, c: char) -> (r: String)
    ensures
        r@ == strip_char(s@, c),
{
    let n = s.unicode_len();
    let mut lo: usize = 0;
    assert(s@.subrange(0, n as int) =~= s@);
    while lo < n && s.get_char(lo) == c
        invariant
            n == s@.len(),
            lo <= n,
            strip_front(s@, c) == strip_front(s@.subrange(lo as int, n as int), c),
        decreases n - lo,
    {
        assert(s@.subrange(lo as int, n as int).drop_first() =~= s@.subrange(lo + 1, n as int));
        lo = lo + 1;
    }
    let ghost front = s@.subrange(lo as int, n as int);
    assert(strip_front(front, c) == front);
    let mut hi: usize = n;
    while hi > lo && s.get_char(hi - 1) == c
        invariant
            n == s@.len(),
            lo <= hi <= n,
            strip_back(front, c) == strip_back(s@.subrange(lo as int, hi as int), c),
        decreases hi - lo,
    {
        assert(s@.subrange(lo as int, hi as int).drop_last() =~= s@.subrange(lo as int, hi - 1));
        hi = hi - 1;
    }
    let part = s.substring_char(lo, hi);
    part.to_string()
}

/// The first of two results that is present.
pub open spec fn or_else(a: Option<i64>, b: Option<i64>) -> Option<i64> {
    if a is Some {
        a
    } else {
        b
    }
}

/// A date field as it is matched: trimmed, then stripped of quotes.
pub open spec fn cleaned(s: Seq<char>) -> Seq<char> {
    strip_char(trim_of(s), '"')
}

/// The legacy dialect's reading of a date: "time, month day, year", then
/// "month day, year time", then RFC 3339.
pub open spec fn legacy_time_of(s: Seq<char>) -> Option<i64> {
    let c = cleaned(s);
    or_else(
        naive_time_of(c, "%I:%M %p, %b %d, %Y"@),
        or_else(naive_time_of(c, "%b %d, %Y %I:%M %p"@), rfc3339_time_of(c)),
    )
}

/// The new dialect's reading of a date: RFC 3339, then a timestamp with
/// fractional seconds and a `Z`, then a bare timestamp.
pub open spec fn new_time_of(s: Seq<char>) -> Option<i64> {
    let c = cleaned(s);
    or_else(
        rfc3339_time_of(c),
        or_else(naive_time_of(c, "%Y-%m-%dT%H:%M:%S%.fZ"@), naive_time_of(c, "%Y-%m-%dT%H:%M:%S"@)),
    )
}

/// The JSON dialect's reading of a date: RFC 3339, then the classic
/// "weekday month day time offset year" form.
pub open spec fn json_time_of(s: Seq<char>) -> Option<i64> {
    or_else(rfc3339_time_of(s), zoned_time_of(s, "%a %b %d %H:%M:%S %z %Y"@))
}

/// Trims the text and strips surrounding quotes.
pub(crate) fn clean(s: &str) -> (r: String)
    ensures
        r@ == cleaned(s@),
{
    let t = trim(s);
    trim_char(t.as_str(), '"')
}

} // verus!
