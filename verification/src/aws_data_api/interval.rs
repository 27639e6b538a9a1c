//! Parsing PostgreSQL INTERVAL text into whole seconds.
use vstd::prelude::*;

use crate::text::{
    chars_of, parse_bounded, parse_bounded_in, starts_with_at, trim, trim_range,
};

verus! {

broadcast use vstd::seq_lib::group_seq_properties;

/// Why an INTERVAL string was rejected.
#[derive(Debug, Clone, Copy, PartialEq, Eq, Structural)]
pub enum IntervalError {
    /// The number before ` seconds` is not an `i64`.
    TotalSeconds,
    /// The number before ` day` is not an `i64`.
    Days,
    /// The hours field is not an `i64`.
    Hours,
    /// There is no `:` after the hours.
    MissingMinutes,
    /// The minutes field is not an `i64`.
    Minutes,
    /// There is no second `:`.
    MissingSeconds,
    /// The whole-seconds field is not an `i64`.
    Seconds,
    /// The total does not fit in an `i64`.
    OutOfRange,
}

/// `p` ends `s`.
pub open spec fn has_suffix(s: Seq<char>, p: Seq<char>) -> bool {
    p.len() <= s.len() && s.skip(s.len() - p.len()) == p
}

/// The first position at or after `i` where `p` occurs in `s`.
pub open spec fn find_from(s: Seq<char>, p: Seq<char>, i: int) -> Option<int>
    decreases s.len() + 1 - i,
{
    if i < 0 || i + p.len() > s.len() {
        None
    } else if s.subrange(i, i + p.len()) == p {
        Some(i)
    } else {
        find_from(s, p, i + 1)
    }
}

/// `s` with every leading repetition of `p` removed (`trim_start_matches`).
pub open spec fn strip_all_prefix(s: Seq<char>, p: Seq<char>) -> Seq<char>
    decreases s.len(),
{
    if p.len() > 0 && p.len() <= s.len() && s.take(p.len() as int) == p {
        strip_all_prefix(s.skip(p.len() as int), p)
    } else {
        s
    }
}

/// The first position of `c` in `s`.
pub open spec fn find_char(s: Seq<char>, c: char) -> Option<int> {
    find_from(s, seq![c], 0)
}

/// `s.parse::<i64>()`.
pub open spec fn parse_i64_spec(s: Seq<char>) -> Option<int> {
    parse_bounded(s, true, i64::MIN as int, i64::MAX as int)
}

/// An integer that an `i64` can hold.
pub open spec fn fits_i64(v: int) -> bool {
    i64::MIN <= v <= i64::MAX
}

/// Where the field that starts `s` ends: at the first `c`, else at the end.
pub open spec fn field_end(s: Seq<char>, c: char) -> int {
    match find_char(s, c) {
        Some(i) => i,
        None => s.len() as int,
    }
}

/// The whole seconds of a `SS[.fff]` field (the text after the second
/// `:`): the part before any further `:`, and of that the part before `.`.
pub open spec fn seconds_field(after_m: Seq<char>) -> Option<int> {
    let sec_field = after_m.take(field_end(after_m, ':'));
    parse_i64_spec(sec_field.take(field_end(sec_field, '.')))
}

/// Minutes and whole seconds of the text after the first `:`.
pub open spec fn minutes_and_seconds(after_h: Seq<char>) -> Result<(int, int), IntervalError> {
    let m_end = field_end(after_h, ':');
    match parse_i64_spec(after_h.take(m_end)) {
        None => Err(IntervalError::Minutes),
        Some(m) => if m_end == after_h.len() {
            Err(IntervalError::MissingSeconds)
        } else {
            match seconds_field(after_h.skip(m_end + 1)) {
                None => Err(IntervalError::Seconds),
                Some(sec) => Ok((m, sec)),
            }
        },
    }
}

/// The `HH:MM:SS[.fff]` part of an interval (after any sign), as
/// `(hours, minutes, whole seconds)`. Fields after a third `:` are ignored,
/// and so is everything after the first `.` of the seconds field.
pub open spec fn clock_fields(body: Seq<char>) -> Result<(int, int, int), IntervalError> {
    let h_end = field_end(body, ':');
    match parse_i64_spec(body.take(h_end)) {
        None => Err(IntervalError::Hours),
        Some(h) => if h_end == body.len() {
            Err(IntervalError::MissingMinutes)
        } else {
            match minutes_and_seconds(body.skip(h_end + 1)) {
                Err(e) => Err(e),
                Ok((m, sec)) => Ok((h, m, sec)),
            }
        },
    }
}

/// Seconds contributed by a signed `HH:MM:SS` clock, checking every
/// intermediate `i64` step (`h * 3600`, `m * 60`, their sums, the sign).
pub open spec fn clock_seconds(negative: bool, h: int, m: int, sec: int) -> Option<int> {
    let a = h * 3600;
    let b = m * 60;
    let c = a + b;
    let d = c + sec;
    let e = if negative {
        -d
    } else {
        d
    };
    if fits_i64(a) && fits_i64(b) && fits_i64(c) && fits_i64(d) && fits_i64(e) {
        Some(e)
    } else {
        None
    }
}

/// Total seconds of the part that follows an optional `N days` prefix.
pub open spec fn clock_part(total: int, rest: Seq<char>) -> Result<int, IntervalError> {
    if rest.len() == 0 {
        Ok(total)
    } else {
        let negative = rest[0] == '-';
        let body = if negative {
            rest.drop_first()
        } else {
            rest
        };
        match clock_fields(body) {
            Err(e) => Err(e),
            Ok((h, m, sec)) => match clock_seconds(negative, h, m, sec) {
                None => Err(IntervalError::OutOfRange),
                Some(c) => if fits_i64(total + c) {
                    Ok(total + c)
                } else {
                    Err(IntervalError::OutOfRange)
                },
            },
        }
    }
}

/// Length of a trailing ` seconds` (8) or ` second` (7) unit, else 0.
pub open spec fn seconds_suffix_len(s: Seq<char>) -> int {
    if has_suffix(s, " seconds"@) {
        8
    } else if has_suffix(s, " second"@) {
        7
    } else {
        0
    }
}

/// Total seconds of `N day[s] [clock]`, where ` day` first occurs at `idx`.
pub open spec fn day_prefixed(s: Seq<char>, idx: int) -> Result<int, IntervalError> {
    match parse_i64_spec(trim(s.take(idx))) {
        None => Err(IntervalError::Days),
        Some(days) => if !fits_i64(days * 86400) {
            Err(IntervalError::OutOfRange)
        } else {
            clock_part(
                days * 86400,
                trim(strip_all_prefix(strip_all_prefix(s.skip(idx), " days"@), " day"@)),
            )
        },
    }
}

/// Total seconds of an already trimmed INTERVAL string.
pub open spec fn trimmed_interval_seconds(s: Seq<char>) -> Result<int, IntervalError> {
    let n = seconds_suffix_len(s);
    if n > 0 {
        match parse_i64_spec(trim(s.take(s.len() - n))) {
            Some(v) => Ok(v),
            None => Err(IntervalError::TotalSeconds),
        }
    } else {
        match find_from(s, " day"@, 0) {
            None => clock_part(0, s),
            Some(idx) => day_prefixed(s, idx),
        }
    }
}

/// A PostgreSQL INTERVAL string as total seconds: either `{n} seconds` /
/// `{n} second`, or `[N day[s]] [[-]HH:MM:SS[.fff]]`, surrounded by any
/// whitespace. Years and months are not accepted.
pub open spec fn interval_seconds(s0: Seq<char>) -> Result<int, IntervalError> {
    trimmed_interval_seconds(trim(s0))
}

/// First position of `p` in `s[lo..hi]`, relative to `lo`.
pub(crate) fn find_in(s: &[char], lo: usize, hi: usize, p: &[char]) -> (res: Option<usize>)
    requires
        lo <= hi <= s@.len(),
    ensures
        match res {
            Some(i) => find_from(s@.subrange(lo as int, hi as int), p@, 0) == Some(i as int),
            None => find_from(s@.subrange(lo as int, hi as int), p@, 0) is None,
        },
{
    let ghost t = s@.subrange(lo as int, hi as int);
    let mut i: usize = 0;
    while i <= hi - lo && p.len() <= (hi - lo) - i
        invariant
            lo <= hi <= s@.len(),
            t == s@.subrange(lo as int, hi as int),
            i <= hi - lo + 1,
            find_from(t, p@, 0) == find_from(t, p@, i as int),
        decreases hi - lo - i,
    {
        let found = starts_with_at(s, lo + i, hi, p);
        assert(t.subrange(i as int, i + p@.len()) =~= s@.subrange(lo + i, lo + i + p@.len()));
        if found {
            return Some(i);
        }
        i = i + 1;
    }
    None
}

/// First position of `c` in `s[lo..hi]`, relative to `lo`.
pub(crate) fn find_char_in(s: &[char], lo: usize, hi: usize, c: char) -> (res: Option<usize>)
    requires
        lo <= hi <= s@.len(),
    ensures
        match res {
            Some(i) => find_char(s@.subrange(lo as int, hi as int), c) == Some(i as int) && i < hi
                - lo,
            None => find_char(s@.subrange(lo as int, hi as int), c) is None,
        },
{
    let ghost t = s@.subrange(lo as int, hi as int);
    let mut i: usize = 0;
    while i < hi - lo
        invariant
            lo <= hi <= s@.len(),
            t == s@.subrange(lo as int, hi as int),
            i <= hi - lo,
            find_char(t, c) == find_from(t, seq![c], i as int),
        decreases hi - lo - i,
    {
        assert(t.subrange(i as int, i + 1) =~= seq![s@[lo + i]]);
        assert(s@[lo + i] != c ==> seq![s@[lo + i]][0] != seq![c][0]);
        if s[lo + i] == c {
            return Some(i);
        }
        i = i + 1;
    }
    None
}

/// End (exclusive) of a run of repetitions of `p` at the start of
/// `s[lo..hi]`, matching [`strip_all_prefix`].
fn skip_all_prefix(s: &[char], lo: usize, hi: usize, p: &[char]) -> (res: usize)
    requires
        lo <= hi <= s@.len(),
    ensures
        lo <= res <= hi,
        s@.subrange(res as int, hi as int) == strip_all_prefix(s@.subrange(lo as int, hi as int), p@),
{
    let mut a = lo;
    if p.len() == 0 {
        return lo;
    }
    while starts_with_at(s, a, hi, p)
        invariant
            lo <= a <= hi <= s@.len(),
            p@.len() > 0,
            strip_all_prefix(s@.subrange(lo as int, hi as int), p@) == strip_all_prefix(
                s@.subrange(a as int, hi as int),
                p@,
            ),
        decreases hi - a,
    {
        assert(s@.subrange(a as int, hi as int).take(p@.len() as int) =~= s@.subrange(
            a as int,
            a + p@.len(),
        ));
        assert(s@.subrange(a as int, hi as int).skip(p@.len() as int) =~= s@.subrange(
            a + p@.len(),
            hi as int,
        ));
        a = a + p.len();
    }
    assert(s@.subrange(a as int, hi as int).take(p@.len() as int) =~= s@.subrange(
        a as int,
        a + p@.len(),
    ) || p@.len() > s@.subrange(a as int, hi as int).len());
    a
}

pub(crate) fn parse_i64_in(s: &[char], lo: usize, hi: usize) -> (res: Option<i64>)
    requires
        lo <= hi <= s@.len(),
    ensures
        match res {
            Some(v) => parse_i64_spec(s@.subrange(lo as int, hi as int)) == Some(v as int),
            None => parse_i64_spec(s@.subrange(lo as int, hi as int)) is None,
        },
{
    match parse_bounded_in(s, lo, hi, true, i64::MIN as i128, i64::MAX as i128) {
        Some(v) => Some(v as i64),
        None => None,
    }
}

/// End of the field starting at `lo`: the first `c` in `s[lo..hi]`, else `hi`.
pub(crate) fn field_end_in(s: &[char], lo: usize, hi: usize, c: char) -> (res: usize)
    requires
        lo <= hi <= s@.len(),
    ensures
        lo <= res <= hi,
        res - lo == field_end(s@.subrange(lo as int, hi as int), c),
{
    match find_char_in(s, lo, hi, c) {
        Some(i) => lo + i,
        None => hi,
    }
}

/// Reads [`seconds_field`] of `s[lo..hi]`.
fn parse_seconds_field(s: &[char], lo: usize, hi: usize) -> (res: Option<i64>)
    requires
        lo <= hi <= s@.len(),
    ensures
        match res {
            Some(v) => seconds_field(s@.subrange(lo as int, hi as int)) == Some(v as int),
            None => seconds_field(s@.subrange(lo as int, hi as int)) is None,
        },
{
    let ghost after_m = s@.subrange(lo as int, hi as int);
    let s_end = field_end_in(s, lo, hi, ':');
    let ghost sec_field = after_m.take(s_end - lo);
    assert(sec_field =~= s@.subrange(lo as int, s_end as int));
    let int_end = field_end_in(s, lo, s_end, '.');
    assert(sec_field.take(int_end - lo) =~= s@.subrange(lo as int, int_end as int));
    parse_i64_in(s, lo, int_end)
}

/// Reads [`minutes_and_seconds`] of `s[lo..hi]`.
fn parse_minutes_seconds(s: &[char], lo: usize, hi: usize) -> (res: Result<(i64, i64), IntervalError>)
    requires
        lo <= hi <= s@.len(),
    ensures
        match res {
            Ok((m, sec)) => minutes_and_seconds(s@.subrange(lo as int, hi as int)) == Ok::<
                (int, int),
                IntervalError,
            >((m as int, sec as int)),
            Err(e) => minutes_and_seconds(s@.subrange(lo as int, hi as int)) == Err::<
                (int, int),
                IntervalError,
            >(e),
        },
{
    let ghost after_h = s@.subrange(lo as int, hi as int);
    let m_end = field_end_in(s, lo, hi, ':');
    assert(after_h.take(m_end - lo) =~= s@.subrange(lo as int, m_end as int));
    let m = match parse_i64_in(s, lo, m_end) {
        None => return Err(IntervalError::Minutes),
        Some(m) => m,
    };
    if m_end == hi {
        return Err(IntervalError::MissingSeconds);
    }
    assert(after_h.skip(m_end - lo + 1) =~= s@.subrange(m_end + 1, hi as int));
    match parse_seconds_field(s, m_end + 1, hi) {
        None => Err(IntervalError::Seconds),
        Some(sec) => Ok((m, sec)),
    }
}

/// Reads the `HH:MM:SS[.fff]` fields of `s[lo..hi]`.
fn parse_clock_fields(s: &[char], lo: usize, hi: usize) -> (res: Result<(i64, i64, i64), IntervalError>)
    requires
        lo <= hi <= s@.len(),
    ensures
        match res {
            Ok((h, m, sec)) => clock_fields(s@.subrange(lo as int, hi as int)) == Ok::<
                (int, int, int),
                IntervalError,
            >((h as int, m as int, sec as int)),
            Err(e) => clock_fields(s@.subrange(lo as int, hi as int)) == Err::<
                (int, int, int),
                IntervalError,
            >(e),
        },
{
    let ghost body = s@.subrange(lo as int, hi as int);
    let h_end = field_end_in(s, lo, hi, ':');
    assert(body.take(h_end - lo) =~= s@.subrange(lo as int, h_end as int));
    let h = match parse_i64_in(s, lo, h_end) {
        None => return Err(IntervalError::Hours),
        Some(h) => h,
    };
    if h_end == hi {
        return Err(IntervalError::MissingMinutes);
    }
    assert(body.skip(h_end - lo + 1) =~= s@.subrange(h_end + 1, hi as int));
    match parse_minutes_seconds(s, h_end + 1, hi) {
        Err(e) => Err(e),
        Ok((m, sec)) => Ok((h, m, sec)),
    }
}

/// Seconds of the part of `s[lo..hi]` after any day count, added to `total`.
fn parse_clock_part(total: i64, s: &[char], lo: usize, hi: usize) -> (res: Result<i64, IntervalError>)
    requires
        lo <= hi <= s@.len(),
    ensures
        match res {
            Ok(v) => clock_part(total as int, s@.subrange(lo as int, hi as int)) == Ok::<
                int,
                IntervalError,
            >(v as int),
            Err(e) => clock_part(total as int, s@.subrange(lo as int, hi as int)) == Err::<
                int,
                IntervalError,
            >(e),
        },
{
    let ghost rest = s@.subrange(lo as int, hi as int);
    if lo == hi {
        return Ok(total);
    }
    let negative = s[lo] == '-';
    assert(rest[0] == s@[lo as int]);
    let body_lo = if negative {
        lo + 1
    } else {
        lo
    };
    assert(negative ==> rest.drop_first() =~= s@.subrange(body_lo as int, hi as int));
    let (h, m, sec) = match parse_clock_fields(s, body_lo, hi) {
        Err(e) => return Err(e),
        Ok(f) => f,
    };
    let a = match h.checked_mul(3600) {
        Some(a) => a,
        None => return Err(IntervalError::OutOfRange),
    };
    let b = match m.checked_mul(60) {
        Some(b) => b,
        None => return Err(IntervalError::OutOfRange),
    };
    let c = match a.checked_add(b) {
        Some(c) => c,
        None => return Err(IntervalError::OutOfRange),
    };
    let d = match c.checked_add(sec) {
        Some(d) => d,
        None => return Err(IntervalError::OutOfRange),
    };
    let e = if negative {
        if d == i64::MIN {
            return Err(IntervalError::OutOfRange);
        }
        -d
    } else {
        d
    };
    match total.checked_add(e) {
        Some(t) => Ok(t),
        None => Err(IntervalError::OutOfRange),
    }
}

fn seconds_word() -> (res: [char; 8])
    ensures
        res@ == " seconds"@,
{
    let w: [char; 8] = [' ', 's', 'e', 'c', 'o', 'n', 'd', 's'];
    proof {
        reveal_strlit(" seconds");
        assert(w@ =~= " seconds"@);
    }
    w
}

fn second_word() -> (res: [char; 7])
    ensures
        res@ == " second"@,
{
    let w: [char; 7] = [' ', 's', 'e', 'c', 'o', 'n', 'd'];
    proof {
        reveal_strlit(" second");
        assert(w@ =~= " second"@);
    }
    w
}

fn day_word() -> (res: [char; 4])
    ensures
        res@ == " day"@,
{
    let w: [char; 4] = [' ', 'd', 'a', 'y'];
    proof {
        reveal_strlit(" day");
        assert(w@ =~= " day"@);
    }
    w
}

fn days_word() -> (res: [char; 5])
    ensures
        res@ == " days"@,
{
    let w: [char; 5] = [' ', 'd', 'a', 'y', 's'];
    proof {
        reveal_strlit(" days");
        assert(w@ =~= " days"@);
    }
    w
}

/// Reads [`seconds_suffix_len`] of `s[lo..hi]`.
fn seconds_suffix_len_in(s: &[char], lo: usize, hi: usize) -> (res: usize)
    requires
        lo <= hi <= s@.len(),
    ensures
        res as int == seconds_suffix_len(s@.subrange(lo as int, hi as int)),
        res <= hi - lo,
{
    let ghost t = s@.subrange(lo as int, hi as int);
    let w8 = seconds_word();
    let w7 = second_word();
    let len = hi - lo;
    proof {
        if len >= 8 {
            assert(t.skip(t.len() - 8) =~= s@.subrange(hi - 8, hi as int));
        }
        if len >= 7 {
            assert(t.skip(t.len() - 7) =~= s@.subrange(hi - 7, hi as int));
        }
    }
    if len >= 8 && starts_with_at(s, hi - 8, hi, w8.as_slice()) {
        8
    } else if len >= 7 && starts_with_at(s, hi - 7, hi, w7.as_slice()) {
        7
    } else {
        0
    }
}

/// Reads [`day_prefixed`] of `s[lo..hi]`.
fn parse_day_prefixed(s: &[char], lo: usize, hi: usize, idx: usize) -> (res: Result<i64, IntervalError>)
    requires
        lo <= lo + idx <= hi <= s@.len(),
    ensures
        match res {
            Ok(v) => day_prefixed(s@.subrange(lo as int, hi as int), idx as int) == Ok::<
                int,
                IntervalError,
            >(v as int),
            Err(e) => day_prefixed(s@.subrange(lo as int, hi as int), idx as int) == Err::<
                int,
                IntervalError,
            >(e),
        },
{
    let ghost t = s@.subrange(lo as int, hi as int);
    let (a, b) = trim_range(s, lo, lo + idx);
    assert(t.take(idx as int) =~= s@.subrange(lo as int, lo + idx));
    let days = match parse_i64_in(s, a, b) {
        None => return Err(IntervalError::Days),
        Some(d) => d,
    };
    let total = match days.checked_mul(86400) {
        Some(t) => t,
        None => return Err(IntervalError::OutOfRange),
    };
    assert(t.skip(idx as int) =~= s@.subrange(lo + idx, hi as int));
    let w5 = days_word();
    let w4 = day_word();
    let p1 = skip_all_prefix(s, lo + idx, hi, w5.as_slice());
    let p2 = skip_all_prefix(s, p1, hi, w4.as_slice());
    let (c, d) = trim_range(s, p2, hi);
    parse_clock_part(total, s, c, d)
}

/// Reads [`trimmed_interval_seconds`] of `s[lo..hi]`.
fn parse_trimmed_interval(s: &[char], lo: usize, hi: usize) -> (res: Result<i64, IntervalError>)
    requires
        lo <= hi <= s@.len(),
    ensures
        match res {
            Ok(v) => trimmed_interval_seconds(s@.subrange(lo as int, hi as int)) == Ok::<
                int,
                IntervalError,
            >(v as int),
            Err(e) => trimmed_interval_seconds(s@.subrange(lo as int, hi as int)) == Err::<
                int,
                IntervalError,
            >(e),
        },
{
    let ghost t = s@.subrange(lo as int, hi as int);
    let n = seconds_suffix_len_in(s, lo, hi);
    if n > 0 {
        let (a, b) = trim_range(s, lo, hi - n);
        assert(t.take(t.len() - n) =~= s@.subrange(lo as int, hi - n));
        return match parse_i64_in(s, a, b) {
            Some(v) => Ok(v),
            None => Err(IntervalError::TotalSeconds),
        };
    }
    let w4 = day_word();
    match find_in(s, lo, hi, w4.as_slice()) {
        None => parse_clock_part(0, s, lo, hi),
        Some(idx) => {
            proof {
                lemma_find_from_bounds(t, " day"@, 0);
            }
            parse_day_prefixed(s, lo, hi, idx)
        },
    }
}

/// A match found by [`find_from`] lies inside `s`.
proof fn lemma_find_from_bounds(s: Seq<char>, p: Seq<char>, i: int)
    ensures
        find_from(s, p, i) matches Some(j) ==> i <= j && j + p.len() <= s.len(),
    decreases s.len() + 1 - i,
{
    if !(i < 0 || i + p.len() > s.len()) && s.subrange(i, i + p.len()) != p {
        lemma_find_from_bounds(s, p, i + 1);
    }
}

/// Parses a PostgreSQL INTERVAL string into total seconds.
///
/// Accepts `{n} seconds` / `{n} second`, and the `HH:MM:SS[.fff]`,
/// `N day[s] HH:MM:SS` and `N day[s]` shapes (with an optional `-` before
/// the clock). Fractions of a second are dropped; years and months are
/// rejected. A total beyond the `i64` range is an error.
pub fn parse_interval_seconds(text: &str) -> (res: Result<i64, IntervalError>)
    ensures
        match res {
            Ok(v) => interval_seconds(text@) == Ok::<int, IntervalError>(v as int),
            Err(e) => interval_seconds(text@) == Err::<int, IntervalError>(e),
        },
{
    let chars = chars_of(text);
    let (lo, hi) = trim_range(&chars, 0, chars.len());
    assert(chars@.subrange(0, chars@.len() as int) =~= text@);
    parse_trimmed_interval(&chars, lo, hi)
}

} // verus!
