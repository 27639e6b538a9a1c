//! Parsing the DATE, TIME and TIMESTAMP text that the Data API returns.
use vstd::prelude::*;

use crate::aws_data_api::interval::{field_end, field_end_in, find_char, find_char_in, find_from};
use crate::conversions::{law_integer_text_round_trip, lemma_nat_text_parses};
use crate::values::{int_text, nat_text};
use crate::text::is_digit;
use crate::text::{chars_of, parse_bounded, parse_bounded_in};

verus! {

broadcast use vstd::seq_lib::group_seq_properties;

/// A calendar date (proleptic Gregorian) as the `time` crate accepts it.
#[derive(Debug, Clone, Copy, PartialEq, Eq, Structural)]
pub struct CalendarDate {
    /// Year, `-9999..=9999`.
    pub year: i32,
    /// Month, `1..=12`.
    pub month: u8,
    /// Day of the month.
    pub day: u8,
}

/// A time of day as the `time` crate accepts it.
#[derive(Debug, Clone, Copy, PartialEq, Eq, Structural)]
pub struct ClockTime {
    /// Hour, `0..=23`.
    pub hour: u8,
    /// Minute, `0..=59`.
    pub minute: u8,
    /// Second, `0..=59`.
    pub second: u8,
    /// Nanosecond, `0..=999_999_999`.
    pub nanosecond: u32,
}

/// A date and a time of day without an offset.
#[derive(Debug, Clone, Copy, PartialEq, Eq, Structural)]
pub struct DateTimeParts {
    /// The date.
    pub date: CalendarDate,
    /// The time of day.
    pub time: ClockTime,
}

/// Why DATE / TIME / TIMESTAMP text was rejected.
#[derive(Debug, Clone, Copy, PartialEq, Eq, Structural)]
pub enum TemporalError {
    /// The year is not an `i32`.
    Year,
    /// No `-` after the year.
    MissingMonth,
    /// The month is not a `u8`.
    Month,
    /// No `-` after the month.
    MissingDay,
    /// The day is not a `u8`.
    Day,
    /// The month is not `1..=12`.
    MonthRange,
    /// The day does not exist in that month, or the year is out of range.
    Date,
    /// The hour is not a `u8`.
    Hour,
    /// No `:` after the hour.
    MissingMinute,
    /// The minute is not a `u8`.
    Minute,
    /// No `:` after the minute.
    MissingSecond,
    /// The fraction of a second is not digits.
    Fraction,
    /// The second is not a `u8`.
    Second,
    /// A clock field is out of range.
    Time,
    /// A timestamp has no space between its date and time.
    MissingSpace,
}

/// `s.parse::<u8>()`.
pub open spec fn parse_u8_spec(s: Seq<char>) -> Option<int> {
    parse_bounded(s, false, 0, 255)
}

/// `s.parse::<i32>()`.
pub open spec fn parse_i32_spec(s: Seq<char>) -> Option<int> {
    parse_bounded(s, true, i32::MIN as int, i32::MAX as int)
}

/// A leap year of the proleptic Gregorian calendar.
pub open spec fn is_leap_year(y: int) -> bool {
    (y % 4 == 0 && y % 100 != 0) || y % 400 == 0
}

/// Number of days in month `m` of year `y`.
pub open spec fn days_in_month(y: int, m: int) -> int {
    if m == 2 {
        if is_leap_year(y) {
            29
        } else {
            28
        }
    } else if m == 4 || m == 6 || m == 9 || m == 11 {
        30
    } else {
        31
    }
}

/// A date that `time::Date::from_calendar_date` accepts.
pub open spec fn valid_calendar_date(y: int, m: int, d: int) -> bool {
    -9999 <= y <= 9999 && 1 <= m <= 12 && 1 <= d <= days_in_month(y, m)
}

/// A time of day that `time::Time::from_hms_nano` accepts.
pub open spec fn valid_clock_time(h: int, m: int, s: int, ns: int) -> bool {
    0 <= h <= 23 && 0 <= m <= 59 && 0 <= s <= 59 && 0 <= ns <= 999_999_999
}

/// `YYYY-MM-DD`: the year up to the first `-`, the month up to the next,
/// the day the rest.
pub open spec fn date_parts(s: Seq<char>) -> Result<CalendarDate, TemporalError> {
    let y_end = field_end(s, '-');
    match parse_i32_spec(s.take(y_end)) {
        None => Err(TemporalError::Year),
        Some(y) => if y_end == s.len() {
            Err(TemporalError::MissingMonth)
        } else {
            month_day_parts(y, s.skip(y_end + 1))
        },
    }
}

/// Month and day of a date whose year is `y`.
pub open spec fn month_day_parts(y: int, r: Seq<char>) -> Result<CalendarDate, TemporalError> {
    let m_end = field_end(r, '-');
    match parse_u8_spec(r.take(m_end)) {
        None => Err(TemporalError::Month),
        Some(m) => if m_end == r.len() {
            Err(TemporalError::MissingDay)
        } else {
            match parse_u8_spec(r.skip(m_end + 1)) {
                None => Err(TemporalError::Day),
                Some(d) => if !(1 <= m <= 12) {
                    Err(TemporalError::MonthRange)
                } else if !valid_calendar_date(y, m, d) {
                    Err(TemporalError::Date)
                } else {
                    Ok(CalendarDate { year: y as i32, month: m as u8, day: d as u8 })
                },
            }
        },
    }
}

/// Whether `c` is a single-byte (ASCII) character.
pub open spec fn is_ascii_char(c: char) -> bool {
    c <= '\x7f'
}

/// Nanoseconds of a fraction: its first nine characters (all ASCII) padded
/// with `0`s to nine digits and read as a `u32`.
pub open spec fn fraction_nanos(frac: Seq<char>) -> Option<int> {
    let k = if frac.len() < 9 {
        frac.len() as int
    } else {
        9
    };
    if exists|j: int| 0 <= j < k && !is_ascii_char(#[trigger] frac[j]) {
        None
    } else {
        parse_bounded(frac.take(k) + Seq::new((9 - k) as nat, |i: int| '0'), false, 0, u32::MAX as int)
    }
}

/// The seconds field: whole seconds, and nanoseconds from any fraction.
pub open spec fn seconds_parts(sec_field: Seq<char>) -> Result<(int, int), TemporalError> {
    match find_char(sec_field, '.') {
        Some(k) => match fraction_nanos(sec_field.skip(k + 1)) {
            None => Err(TemporalError::Fraction),
            Some(ns) => match parse_u8_spec(sec_field.take(k)) {
                None => Err(TemporalError::Second),
                Some(sec) => Ok((sec, ns)),
            },
        },
        None => match parse_u8_spec(sec_field) {
            None => Err(TemporalError::Second),
            Some(sec) => Ok((sec, 0)),
        },
    }
}

/// `HH:MM:SS[.fff]`.
pub open spec fn time_parts(s: Seq<char>) -> Result<ClockTime, TemporalError> {
    let h_end = field_end(s, ':');
    match parse_u8_spec(s.take(h_end)) {
        None => Err(TemporalError::Hour),
        Some(h) => if h_end == s.len() {
            Err(TemporalError::MissingMinute)
        } else {
            minute_second_parts(h, s.skip(h_end + 1))
        },
    }
}

/// Minutes and seconds of a time whose hour is `h`.
pub open spec fn minute_second_parts(h: int, r: Seq<char>) -> Result<ClockTime, TemporalError> {
    let m_end = field_end(r, ':');
    match parse_u8_spec(r.take(m_end)) {
        None => Err(TemporalError::Minute),
        Some(m) => if m_end == r.len() {
            Err(TemporalError::MissingSecond)
        } else {
            match seconds_parts(r.skip(m_end + 1)) {
                Err(e) => Err(e),
                Ok((sec, ns)) => if valid_clock_time(h, m, sec, ns) {
                    Ok(ClockTime { hour: h as u8, minute: m as u8, second: sec as u8, nanosecond: ns as u32 })
                } else {
                    Err(TemporalError::Time)
                },
            }
        },
    }
}

/// `YYYY-MM-DD HH:MM:SS[.fff]`, split at the first space.
pub open spec fn timestamp_parts(s: Seq<char>) -> Result<DateTimeParts, TemporalError> {
    match find_char(s, ' ') {
        None => Err(TemporalError::MissingSpace),
        Some(k) => match date_parts(s.take(k)) {
            Err(e) => Err(e),
            Ok(date) => match time_parts(s.skip(k + 1)) {
                Err(e) => Err(e),
                Ok(time) => Ok(DateTimeParts { date, time }),
            },
        },
    }
}

/// `time::Date::from_calendar_date(year, Month::try_from(month)?, day)`,
/// read back as year, month and day.
///
/// Claims: it succeeds exactly for a month `1..=12`, a year
/// `-9999..=9999` and a day that exists in that month of the proleptic
/// Gregorian calendar, and the date it makes has the given components.
#[verifier::external_body]
fn calendar_date(year: i32, month: u8, day: u8) -> (res: Option<CalendarDate>)
    ensures
        res is Some <==> valid_calendar_date(year as int, month as int, day as int),
        res matches Some(c) ==> c == (CalendarDate { year, month, day }),
{
    let month = time::Month::try_from(month).ok()?;
    time::Date::from_calendar_date(year, month, day).ok().map(
        |d| CalendarDate { year: d.year(), month: u8::from(d.month()), day: d.day() },
    )
}

/// `time::Time::from_hms_nano(hour, minute, second, nanosecond)`, read back
/// as its components.
///
/// Claims: it succeeds exactly when every component is in its clock range,
/// and the time it makes has the given components.
#[verifier::external_body]
fn clock_time(hour: u8, minute: u8, second: u8, nanosecond: u32) -> (res: Option<ClockTime>)
    ensures
        res is Some <==> valid_clock_time(hour as int, minute as int, second as int, nanosecond as int),
        res matches Some(t) ==> t == (ClockTime { hour, minute, second, nanosecond }),
{
    time::Time::from_hms_nano(hour, minute, second, nanosecond).ok().map(
        |t| ClockTime { hour: t.hour(), minute: t.minute(), second: t.second(), nanosecond: t.nanosecond() },
    )
}

fn parse_u8_in(s: &[char], lo: usize, hi: usize) -> (res: Option<u8>)
    requires
        lo <= hi <= s@.len(),
    ensures
        match res {
            Some(v) => parse_u8_spec(s@.subrange(lo as int, hi as int)) == Some(v as int),
            None => parse_u8_spec(s@.subrange(lo as int, hi as int)) is None,
        },
{
    match parse_bounded_in(s, lo, hi, false, 0, 255) {
        Some(v) => Some(v as u8),
        None => None,
    }
}

fn parse_i32_in(s: &[char], lo: usize, hi: usize) -> (res: Option<i32>)
    requires
        lo <= hi <= s@.len(),
    ensures
        match res {
            Some(v) => parse_i32_spec(s@.subrange(lo as int, hi as int)) == Some(v as int),
            None => parse_i32_spec(s@.subrange(lo as int, hi as int)) is None,
        },
{
    match parse_bounded_in(s, lo, hi, true, i32::MIN as i128, i32::MAX as i128) {
        Some(v) => Some(v as i32),
        None => None,
    }
}

/// Reads [`month_day_parts`] of `s[lo..hi]`.
fn parse_month_day(y: i32, s: &[char], lo: usize, hi: usize) -> (res: Result<CalendarDate, TemporalError>)
    requires
        lo <= hi <= s@.len(),
    ensures
        res == month_day_parts(y as int, s@.subrange(lo as int, hi as int)),
{
    let ghost r = s@.subrange(lo as int, hi as int);
    let m_end = field_end_in(s, lo, hi, '-');
    assert(r.take(m_end - lo) =~= s@.subrange(lo as int, m_end as int));
    let m = match parse_u8_in(s, lo, m_end) {
        None => return Err(TemporalError::Month),
        Some(m) => m,
    };
    if m_end == hi {
        return Err(TemporalError::MissingDay);
    }
    assert(r.skip(m_end - lo + 1) =~= s@.subrange(m_end + 1, hi as int));
    let d = match parse_u8_in(s, m_end + 1, hi) {
        None => return Err(TemporalError::Day),
        Some(d) => d,
    };
    if !(1 <= m && m <= 12) {
        return Err(TemporalError::MonthRange);
    }
    match calendar_date(y, m, d) {
        None => Err(TemporalError::Date),
        Some(c) => Ok(c),
    }
}

/// Reads [`date_parts`] of `s[lo..hi]`.
fn parse_date_in(s: &[char], lo: usize, hi: usize) -> (res: Result<CalendarDate, TemporalError>)
    requires
        lo <= hi <= s@.len(),
    ensures
        res == date_parts(s@.subrange(lo as int, hi as int)),
{
    let ghost t = s@.subrange(lo as int, hi as int);
    let y_end = field_end_in(s, lo, hi, '-');
    assert(t.take(y_end - lo) =~= s@.subrange(lo as int, y_end as int));
    let y = match parse_i32_in(s, lo, y_end) {
        None => return Err(TemporalError::Year),
        Some(y) => y,
    };
    if y_end == hi {
        return Err(TemporalError::MissingMonth);
    }
    assert(t.skip(y_end - lo + 1) =~= s@.subrange(y_end + 1, hi as int));
    parse_month_day(y, s, y_end + 1, hi)
}

/// Reads [`fraction_nanos`] of `s[lo..hi]`.
fn parse_fraction(s: &[char], lo: usize, hi: usize) -> (res: Option<u32>)
    requires
        lo <= hi <= s@.len(),
    ensures
        match res {
            Some(v) => fraction_nanos(s@.subrange(lo as int, hi as int)) == Some(v as int),
            None => fraction_nanos(s@.subrange(lo as int, hi as int)) is None,
        },
{
    let ghost frac = s@.subrange(lo as int, hi as int);
    let k: usize = if hi - lo < 9 {
        hi - lo
    } else {
        9
    };
    let mut buf: [char; 9] = ['0'; 9];
    let mut j: usize = 0;
    while j < k
        invariant
            lo <= hi <= s@.len(),
            k <= 9,
            k <= hi - lo,
            j <= k,
            frac == s@.subrange(lo as int, hi as int),
            forall|i: int| 0 <= i < j ==> #[trigger] buf@[i] == frac[i],
            forall|i: int| 0 <= i < j ==> is_ascii_char(#[trigger] frac[i]),
            forall|i: int| j <= i < 9 ==> #[trigger] buf@[i] == '0',
        decreases k - j,
    {
        let c = s[lo + j];
        assert(frac[j as int] == c);
        if c > '\x7f' {
            assert(!is_ascii_char(frac[j as int]));
            return None;
        }
        buf[j] = c;
        j = j + 1;
    }
    assert(buf@ =~= frac.take(k as int) + Seq::new((9 - k) as nat, |i: int| '0'));
    assert(!exists|i: int| 0 <= i < k && !is_ascii_char(#[trigger] frac[i]));
    match parse_bounded_in(&buf, 0, 9, false, 0, u32::MAX as i128) {
        Some(v) => {
            assert(buf@.subrange(0, 9) =~= buf@);
            Some(v as u32)
        },
        None => {
            assert(buf@.subrange(0, 9) =~= buf@);
            None
        },
    }
}

/// Reads [`seconds_parts`] of `s[lo..hi]`.
fn parse_seconds(s: &[char], lo: usize, hi: usize) -> (res: Result<(u8, u32), TemporalError>)
    requires
        lo <= hi <= s@.len(),
    ensures
        match res {
            Ok((sec, ns)) => seconds_parts(s@.subrange(lo as int, hi as int)) == Ok::<
                (int, int),
                TemporalError,
            >((sec as int, ns as int)),
            Err(e) => seconds_parts(s@.subrange(lo as int, hi as int)) == Err::<
                (int, int),
                TemporalError,
            >(e),
        },
{
    let ghost f = s@.subrange(lo as int, hi as int);
    match find_char_in(s, lo, hi, '.') {
        Some(k) => {
            assert(f.skip(k + 1) =~= s@.subrange(lo + k + 1, hi as int));
            assert(f.take(k as int) =~= s@.subrange(lo as int, lo + k));
            let ns = match parse_fraction(s, lo + k + 1, hi) {
                None => return Err(TemporalError::Fraction),
                Some(ns) => ns,
            };
            match parse_u8_in(s, lo, lo + k) {
                None => Err(TemporalError::Second),
                Some(sec) => Ok((sec, ns)),
            }
        },
        None => match parse_u8_in(s, lo, hi) {
            None => Err(TemporalError::Second),
            Some(sec) => Ok((sec, 0)),
        },
    }
}

/// Reads [`minute_second_parts`] of `s[lo..hi]`.
fn parse_minute_second(h: u8, s: &[char], lo: usize, hi: usize) -> (res: Result<ClockTime, TemporalError>)
    requires
        lo <= hi <= s@.len(),
    ensures
        res == minute_second_parts(h as int, s@.subrange(lo as int, hi as int)),
{
    let ghost r = s@.subrange(lo as int, hi as int);
    let m_end = field_end_in(s, lo, hi, ':');
    assert(r.take(m_end - lo) =~= s@.subrange(lo as int, m_end as int));
    let m = match parse_u8_in(s, lo, m_end) {
        None => return Err(TemporalError::Minute),
        Some(m) => m,
    };
    if m_end == hi {
        return Err(TemporalError::MissingSecond);
    }
    assert(r.skip(m_end - lo + 1) =~= s@.subrange(m_end + 1, hi as int));
    let (sec, ns) = match parse_seconds(s, m_end + 1, hi) {
        Err(e) => return Err(e),
        Ok(p) => p,
    };
    match clock_time(h, m, sec, ns) {
        None => Err(TemporalError::Time),
        Some(t) => Ok(t),
    }
}

/// Reads [`time_parts`] of `s[lo..hi]`.
fn parse_time_in(s: &[char], lo: usize, hi: usize) -> (res: Result<ClockTime, TemporalError>)
    requires
        lo <= hi <= s@.len(),
    ensures
        res == time_parts(s@.subrange(lo as int, hi as int)),
{
    let ghost t = s@.subrange(lo as int, hi as int);
    let h_end = field_end_in(s, lo, hi, ':');
    assert(t.take(h_end - lo) =~= s@.subrange(lo as int, h_end as int));
    let h = match parse_u8_in(s, lo, h_end) {
        None => return Err(TemporalError::Hour),
        Some(h) => h,
    };
    if h_end == hi {
        return Err(TemporalError::MissingMinute);
    }
    assert(t.skip(h_end - lo + 1) =~= s@.subrange(h_end + 1, hi as int));
    parse_minute_second(h, s, h_end + 1, hi)
}

/// Parses `YYYY-MM-DD`.
pub fn parse_date(text: &str) -> (res: Result<CalendarDate, TemporalError>)
    ensures
        res == date_parts(text@),
{
    let chars = chars_of(text);
    assert(chars@.subrange(0, chars@.len() as int) =~= text@);
    parse_date_in(&chars, 0, chars.len())
}

/// Parses `HH:MM:SS[.fff]`; a fraction is padded or cut to nanoseconds.
pub fn parse_time(text: &str) -> (res: Result<ClockTime, TemporalError>)
    ensures
        res == time_parts(text@),
{
    let chars = chars_of(text);
    assert(chars@.subrange(0, chars@.len() as int) =~= text@);
    parse_time_in(&chars, 0, chars.len())
}

/// Parses `YYYY-MM-DD HH:MM:SS[.fff]`.
pub fn parse_primitive(text: &str) -> (res: Result<DateTimeParts, TemporalError>)
    ensures
        res == timestamp_parts(text@),
{
    let chars = chars_of(text);
    let n = chars.len();
    assert(chars@.subrange(0, n as int) =~= text@);
    match find_char_in(&chars, 0, n, ' ') {
        None => Err(TemporalError::MissingSpace),
        Some(k) => {
            assert(text@.take(k as int) =~= chars@.subrange(0, k as int));
            assert(text@.skip(k + 1) =~= chars@.subrange(k + 1, n as int));
            let date = match parse_date_in(&chars, 0, k) {
                Err(e) => return Err(e),
                Ok(d) => d,
            };
            match parse_time_in(&chars, k + 1, n) {
                Err(e) => Err(e),
                Ok(time) => Ok(DateTimeParts { date, time }),
            }
        },
    }
}

proof fn lemma_find_char_at(s: Seq<char>, c: char, k: int, i: int)
    requires
        0 <= i <= k < s.len(),
        s[k] == c,
        forall|j: int| i <= j < k ==> s[j] != c,
    ensures
        find_from(s, seq![c], i) == Some(k),
    decreases k - i,
{
    if i == k {
        assert(s.subrange(i, i + 1) =~= seq![c]);
    } else {
        assert(s.subrange(i, i + 1)[0] != seq![c][0]);
        lemma_find_char_at(s, c, k, i + 1);
    }
}

/// The field of `a + [c] + b` that ends at the first `c` is `a`, when `a`
/// holds no `c`.
proof fn lemma_field_split(a: Seq<char>, c: char, b: Seq<char>)
    requires
        forall|j: int| 0 <= j < a.len() ==> a[j] != c,
    ensures
        field_end(a + seq![c] + b, c) == a.len(),
        (a + seq![c] + b).take(a.len() as int) == a,
        (a + seq![c] + b).skip(a.len() as int + 1) == b,
{
    let s = a + seq![c] + b;
    lemma_find_char_at(s, c, a.len() as int, 0);
    assert(s.take(a.len() as int) =~= a);
    assert(s.skip(a.len() as int + 1) =~= b);
}

proof fn lemma_digits_not(n: nat, c: char)
    requires
        !is_digit(c),
    ensures
        forall|j: int| 0 <= j < nat_text(n).len() ==> nat_text(n)[j] != c,
{
    lemma_nat_text_parses(n);
}

/// Every calendar date of a year from 0 to 9999, written `Y-M-D` in
/// decimal, reads back with exactly its year, month and day: every month
/// from 1 to 12 and every day that month has are accepted.
pub proof fn law_date_text_reads_back(y: int, m: int, d: int)
    requires
        0 <= y <= 9999,
        1 <= m <= 12,
        1 <= d <= days_in_month(y, m),
    ensures
        date_parts(nat_text(y as nat) + seq!['-'] + nat_text(m as nat) + seq!['-'] + nat_text(d as nat))
            == Ok::<CalendarDate, TemporalError>(CalendarDate { year: y as i32, month: m as u8, day: d as u8 }),
{
    let yt = nat_text(y as nat);
    let mt = nat_text(m as nat);
    let dt = nat_text(d as nat);
    let r = mt + seq!['-'] + dt;
    lemma_digits_not(y as nat, '-');
    lemma_digits_not(m as nat, '-');
    lemma_field_split(yt, '-', r);
    assert(yt + seq!['-'] + mt + seq!['-'] + dt =~= yt + seq!['-'] + r);
    lemma_field_split(mt, '-', dt);
    law_integer_text_round_trip(y, true, i32::MIN as int, i32::MAX as int);
    assert(int_text(y) == yt);
    law_integer_text_round_trip(m, false, 0, 255);
    assert(int_text(m) == mt);
    law_integer_text_round_trip(d, false, 0, 255);
    assert(int_text(d) == dt);
    assert(days_in_month(y, m) <= 31);
}

/// Whatever a date text reads as is a date of the calendar: a month from 1
/// to 12 and a day that the month has, in a year from -9999 to 9999.
pub proof fn law_read_dates_are_calendar_dates(s: Seq<char>)
    ensures
        date_parts(s) matches Ok(c) ==> {
            &&& -9999 <= c.year <= 9999
            &&& 1 <= c.month <= 12
            &&& 1 <= c.day <= days_in_month(c.year as int, c.month as int)
        },
{
}

} // verus!
