//! Dates and times of the `time` crate and of `chrono`, and UUIDs,
//! exchanged with the Data API as text.
//!
//! The values are held as their components; the outside crates make the
//! text of a value and read a value from text.
use chrono::{Datelike, Timelike};
use vstd::prelude::*;

use super::encode::TypeHint;
use super::field::{DecodeError, Field, Row, expect_string, field_at, field_is_null, spec_string_at, string_at};
use super::network::read_nullable_column;
use super::temporal::{
    CalendarDate, ClockTime, DateTimeParts, TemporalError, valid_calendar_date, valid_clock_time, days_in_month,
    parse_primitive, timestamp_parts,
};
use super::interval::{IntervalError, has_suffix, interval_seconds};
use crate::conversions::{law_integer_text_round_trip, lemma_nat_text_parses, parse_uuid, uuid_parse};
use crate::text::{is_digit, is_whitespace, trim};
use crate::text::push_str;
use crate::values::{int_text, int_to_text, nat_text};

verus! {

/// A date and time of day with the offset of its time zone from UTC.
#[derive(Debug, Clone, Copy, PartialEq, Eq, Structural)]
pub struct OffsetParts {
    /// The local date and time.
    pub local: DateTimeParts,
    /// Seconds east of UTC.
    pub offset_seconds: i32,
}

/// A date and a time that the `time` crate accepts.
pub open spec fn valid_parts(p: DateTimeParts) -> bool {
    &&& valid_calendar_date(p.date.year as int, p.date.month as int, p.date.day as int)
    &&& valid_clock_time(
        p.time.hour as int,
        p.time.minute as int,
        p.time.second as int,
        p.time.nanosecond as int,
    )
}

/// An offset that `time::UtcOffset` accepts: less than 26 hours either way.
pub open spec fn valid_offset(seconds: int) -> bool {
    -93_599 <= seconds <= 93_599
}

/// An offset that `chrono::FixedOffset` accepts: less than a day either way.
pub open spec fn valid_chrono_offset(seconds: int) -> bool {
    -86_399 <= seconds <= 86_399
}

/// A date that `chrono::NaiveDate::from_ymd_opt` accepts: years
/// -262143 to 262142.
pub open spec fn valid_chrono_date(d: CalendarDate) -> bool {
    -262_143 <= d.year <= 262_142 && 1 <= d.month <= 12 && 1 <= d.day <= days_in_month(
        d.year as int,
        d.month as int,
    )
}

/// A time that `chrono::NaiveTime::from_hms_nano_opt` accepts: a second
/// of `59` may carry a leap second, nanoseconds up to `1_999_999_999`.
pub open spec fn valid_chrono_time(t: ClockTime) -> bool {
    &&& t.hour <= 23 && t.minute <= 59 && t.second <= 59
    &&& t.nanosecond <= 1_999_999_999
    &&& t.nanosecond >= 1_000_000_000 ==> t.second == 59
}

/// A date and time that `chrono` accepts.
pub open spec fn valid_chrono_parts(p: DateTimeParts) -> bool {
    valid_chrono_date(p.date) && valid_chrono_time(p.time)
}

/// The local date and time `p.local` at offset `p.offset_seconds` is an
/// instant `chrono` can hold: its UTC date does not fall before the first
/// or after the last date `chrono` has.
pub open spec fn chrono_utc_in_range(p: OffsetParts) -> bool {
    let secs = p.local.time.hour * 3600 + p.local.time.minute * 60 + p.local.time.second;
    let utc = secs - p.offset_seconds;
    let d = p.local.date;
    &&& !(utc < 0 && d.year == -262_143 && d.month == 1 && d.day == 1)
    &&& !(utc >= 86_400 && d.year == 262_142 && d.month == 12 && d.day == 31)
}

/// The components of `v` are a value `chrono` can hold.
pub open spec fn valid_chrono_temporal(v: TemporalValue) -> bool {
    match v {
        TemporalValue::Date(d) => valid_chrono_date(d),
        TemporalValue::Time(t) => valid_chrono_time(t),
        TemporalValue::Timestamp(p) => valid_chrono_parts(p),
        TemporalValue::TimestampTz(p) => {
            &&& valid_chrono_parts(p.local)
            &&& valid_chrono_offset(p.offset_seconds as int)
            &&& chrono_utc_in_range(p)
        },
        TemporalValue::Interval(_) => true,
    }
}

/// A date or time value, as the `time` crate or `chrono` holds it.
#[derive(Debug, Clone, Copy, PartialEq, Eq, Structural)]
pub enum TemporalValue {
    /// A `DATE`.
    Date(CalendarDate),
    /// A `TIME`.
    Time(ClockTime),
    /// A `TIMESTAMP`.
    Timestamp(DateTimeParts),
    /// A `TIMESTAMPTZ`.
    TimestampTz(OffsetParts),
    /// An `INTERVAL` of whole seconds.
    Interval(i64),
}

/// The components of `v` are a value the outside crates can hold.
pub open spec fn valid_temporal(v: TemporalValue) -> bool {
    match v {
        TemporalValue::Date(d) => valid_calendar_date(d.year as int, d.month as int, d.day as int),
        TemporalValue::Time(t) => valid_clock_time(
            t.hour as int,
            t.minute as int,
            t.second as int,
            t.nanosecond as int,
        ),
        TemporalValue::Timestamp(p) => valid_parts(p),
        TemporalValue::TimestampTz(p) => valid_parts(p.local) && valid_offset(p.offset_seconds as int),
        TemporalValue::Interval(_) => true,
    }
}

/// `n` in decimal, with leading zeros up to `width` digits.
pub open spec fn zero_padded(n: nat, width: nat) -> Seq<char> {
    let t = nat_text(n);
    if t.len() < width {
        Seq::new((width - t.len()) as nat, |i: int| '0') + t
    } else {
        t
    }
}

/// `-MM-DD` of a date, two digits each.
pub open spec fn month_day_text(d: CalendarDate) -> Seq<char> {
    seq!['-'] + zero_padded(d.month as nat, 2) + seq!['-'] + zero_padded(d.day as nat, 2)
}

/// What `time::Date`'s `Display` writes for `d`: the year with at least
/// four digits, `-` before a negative year, then `-MM-DD`.
pub open spec fn time_date_display(d: CalendarDate) -> Seq<char> {
    let y = d.year as int;
    (if y < 0 {
        seq!['-']
    } else {
        Seq::empty()
    }) + zero_padded(if y < 0 {
        (-y) as nat
    } else {
        y as nat
    }, 4) + month_day_text(d)
}

/// What `time::Time`'s `Display` writes for `t`.
pub uninterp spec fn time_time_display(t: ClockTime) -> Seq<char>;

/// What `time::PrimitiveDateTime`'s `Display` writes for `p`.
pub uninterp spec fn time_primitive_display(p: DateTimeParts) -> Seq<char>;

/// What `time::OffsetDateTime`'s `Display` writes for `p`.
pub uninterp spec fn time_offset_display(p: OffsetParts) -> Seq<char>;

/// What `chrono::NaiveDate`'s `Display` writes for `d`: a year from 0 to
/// 9999 as four digits, any other year with its sign and at least four
/// digits (`{:+05}`), then `-MM-DD`.
pub open spec fn chrono_date_display(d: CalendarDate) -> Seq<char> {
    let y = d.year as int;
    (if 0 <= y <= 9999 {
        zero_padded(y as nat, 4)
    } else if y < 0 {
        seq!['-'] + zero_padded((-y) as nat, 4)
    } else {
        seq!['+'] + zero_padded(y as nat, 4)
    }) + month_day_text(d)
}

/// What `chrono::NaiveTime`'s `Display` writes for `t`.
pub uninterp spec fn chrono_time_display(t: ClockTime) -> Seq<char>;

/// What `chrono::NaiveDateTime::format("%Y-%m-%d %H:%M:%S%.f")` writes for `p`.
pub uninterp spec fn chrono_timestamp_display(p: DateTimeParts) -> Seq<char>;

/// What `chrono::DateTime::<FixedOffset>::to_rfc3339` writes for `p`.
pub uninterp spec fn chrono_rfc3339_display(p: OffsetParts) -> Seq<char>;

/// What `time::OffsetDateTime::parse(text, &Rfc3339)` reads from `text`.
pub uninterp spec fn time_parse_rfc3339(text: Seq<char>) -> Option<OffsetParts>;

/// What `chrono::DateTime::<FixedOffset>::parse_from_rfc3339` reads from `text`.
pub uninterp spec fn chrono_parse_rfc3339(text: Seq<char>) -> Option<OffsetParts>;

/// What `chrono::DateTime::<FixedOffset>::parse_from_str(text, fmt)` reads.
pub uninterp spec fn chrono_parse_offset(text: Seq<char>, fmt: Seq<char>) -> Option<OffsetParts>;

/// What `chrono::NaiveDateTime::parse_from_str(text, fmt)` reads.
pub uninterp spec fn chrono_parse_naive(text: Seq<char>, fmt: Seq<char>) -> Option<DateTimeParts>;

/// What `chrono::NaiveDate::parse_from_str(text, fmt)` reads.
pub uninterp spec fn chrono_parse_date(text: Seq<char>, fmt: Seq<char>) -> Option<CalendarDate>;

/// What `chrono::NaiveTime::parse_from_str(text, fmt)` reads.
pub uninterp spec fn chrono_parse_time(text: Seq<char>, fmt: Seq<char>) -> Option<ClockTime>;

/// `time::Date::from_calendar_date(..)` and its `Display`.
///
/// Claims: for a date that `time` accepts (`requires`), the text is
/// `time_date_display(d)`: the year (`-` before a negative one) with at
/// least four digits, then `-MM-DD`.
#[verifier::external_body]
fn time_date_text(d: CalendarDate) -> (res: String)
    requires
        valid_calendar_date(d.year as int, d.month as int, d.day as int),
    ensures
        res@ == time_date_display(d),
{
    let month = time::Month::try_from(d.month).unwrap();
    time::Date::from_calendar_date(d.year, month, d.day).unwrap().to_string()
}

/// `time::Time::from_hms_nano(..)` and its `Display`.
///
/// Claims: for a time that `time` accepts, the text depends on the time
/// alone (it is named `time_time_display`).
#[verifier::external_body]
fn time_time_text(t: ClockTime) -> (res: String)
    requires
        valid_clock_time(t.hour as int, t.minute as int, t.second as int, t.nanosecond as int),
    ensures
        res@ == time_time_display(t),
{
    time::Time::from_hms_nano(t.hour, t.minute, t.second, t.nanosecond).unwrap().to_string()
}

/// `time::PrimitiveDateTime::new(..)` and its `Display`.
///
/// Claims: for a date and time that `time` accepts, the text depends on
/// `p` alone (it is named `time_primitive_display`).
#[verifier::external_body]
fn time_primitive_text(p: DateTimeParts) -> (res: String)
    requires
        valid_parts(p),
    ensures
        res@ == time_primitive_display(p),
{
    let month = time::Month::try_from(p.date.month).unwrap();
    let date = time::Date::from_calendar_date(p.date.year, month, p.date.day).unwrap();
    let t = time::Time::from_hms_nano(p.time.hour, p.time.minute, p.time.second, p.time.nanosecond).unwrap();
    time::PrimitiveDateTime::new(date, t).to_string()
}

/// `time::PrimitiveDateTime::assume_offset(..)` and its `Display`.
///
/// Claims: for a date, time and offset that `time` accepts, the text
/// depends on `p` alone (it is named `time_offset_display`).
#[verifier::external_body]
fn time_offset_text(p: OffsetParts) -> (res: String)
    requires
        valid_parts(p.local),
        valid_offset(p.offset_seconds as int),
    ensures
        res@ == time_offset_display(p),
{
    let l = p.local;
    let month = time::Month::try_from(l.date.month).unwrap();
    let date = time::Date::from_calendar_date(l.date.year, month, l.date.day).unwrap();
    let t = time::Time::from_hms_nano(l.time.hour, l.time.minute, l.time.second, l.time.nanosecond).unwrap();
    let offset = time::UtcOffset::from_whole_seconds(p.offset_seconds).unwrap();
    time::PrimitiveDateTime::new(date, t).assume_offset(offset).to_string()
}

/// `chrono::NaiveDate::from_ymd_opt(..)` and its `Display`.
///
/// Claims: for a date that `chrono` accepts (`requires`), the text is
/// `chrono_date_display(d)`: a year from 0 to 9999 as four digits, another
/// year with its sign and at least four digits, then `-MM-DD`.
#[verifier::external_body]
fn chrono_date_text(d: CalendarDate) -> (res: String)
    requires
        valid_chrono_date(d),
    ensures
        res@ == chrono_date_display(d),
{
    chrono::NaiveDate::from_ymd_opt(d.year, u32::from(d.month), u32::from(d.day)).unwrap().to_string()
}

/// `chrono::NaiveTime::from_hms_nano_opt(..)` and its `Display`.
///
/// Claims: for a time that `chrono` accepts, the text depends on the time
/// alone (`chrono_time_display`).
#[verifier::external_body]
fn chrono_time_text(t: ClockTime) -> (res: String)
    requires
        valid_chrono_time(t),
    ensures
        res@ == chrono_time_display(t),
{
    chrono::NaiveTime::from_hms_nano_opt(u32::from(t.hour), u32::from(t.minute), u32::from(t.second), t.nanosecond)
        .unwrap()
        .to_string()
}

/// `chrono::NaiveDateTime::format("%Y-%m-%d %H:%M:%S%.f").to_string()`.
///
/// Claims: for a date and time that `chrono` accepts, the text depends on
/// `p` alone (it is named `chrono_timestamp_display`).
#[verifier::external_body]
fn chrono_timestamp_text(p: DateTimeParts) -> (res: String)
    requires
        valid_chrono_parts(p),
    ensures
        res@ == chrono_timestamp_display(p),
{
    let d = chrono::NaiveDate::from_ymd_opt(p.date.year, u32::from(p.date.month), u32::from(p.date.day)).unwrap();
    let t = chrono::NaiveTime::from_hms_nano_opt(
        u32::from(p.time.hour),
        u32::from(p.time.minute),
        u32::from(p.time.second),
        p.time.nanosecond,
    ).unwrap();
    chrono::NaiveDateTime::new(d, t).format("%Y-%m-%d %H:%M:%S%.f").to_string()
}

/// `chrono::DateTime::<FixedOffset>::to_rfc3339` of the local date and time
/// `p.local` at offset `p.offset_seconds`.
///
/// Claims: for values that `chrono` accepts (a date, time and offset it
/// accepts, whose instant in UTC stays within its dates), the text depends
/// on `p` alone (`chrono_rfc3339_display`).
#[verifier::external_body]
fn chrono_rfc3339_text(p: OffsetParts) -> (res: String)
    requires
        valid_chrono_parts(p.local),
        valid_chrono_offset(p.offset_seconds as int),
        chrono_utc_in_range(p),
    ensures
        res@ == chrono_rfc3339_display(p),
{
    let l = p.local;
    let d = chrono::NaiveDate::from_ymd_opt(l.date.year, u32::from(l.date.month), u32::from(l.date.day)).unwrap();
    let t = chrono::NaiveTime::from_hms_nano_opt(
        u32::from(l.time.hour),
        u32::from(l.time.minute),
        u32::from(l.time.second),
        l.time.nanosecond,
    ).unwrap();
    let offset = chrono::FixedOffset::east_opt(p.offset_seconds).unwrap();
    chrono::NaiveDateTime::new(d, t).and_local_timezone(offset).unwrap().to_rfc3339()
}

/// `time::OffsetDateTime::parse(text, &Rfc3339)`, as its local components
/// and offset; `None` where the crate reports an error.
///
/// Claims: the result depends on `text` alone (`time_parse_rfc3339`), and
/// what it reads is a value `time` holds: a date and time it accepts and
/// an offset below 26 hours. Which texts it accepts is not stated.
#[verifier::external_body]
fn parse_time_rfc3339(text: &str) -> (res: Option<OffsetParts>)
    ensures
        res == time_parse_rfc3339(text@),
        res matches Some(p) ==> valid_parts(p.local) && valid_offset(p.offset_seconds as int),
{
    match time::OffsetDateTime::parse(text, &time::format_description::well_known::Rfc3339) {
        Ok(dt) => Some(OffsetParts {
            local: DateTimeParts {
                date: CalendarDate { year: dt.year(), month: u8::from(dt.month()), day: dt.day() },
                time: ClockTime { hour: dt.hour(), minute: dt.minute(), second: dt.second(), nanosecond: dt.nanosecond() },
            },
            offset_seconds: dt.offset().whole_seconds(),
        }),
        Err(_) => None,
    }
}

/// `chrono::DateTime::<FixedOffset>::parse_from_rfc3339(text)`, as its
/// local components and offset; `None` where the crate reports an error.
///
/// Claims: the result depends on `text` alone (`chrono_parse_rfc3339`).
#[verifier::external_body]
fn parse_rfc3339(text: &str) -> (res: Option<OffsetParts>)
    ensures
        res == chrono_parse_rfc3339(text@),
{
    match chrono::DateTime::parse_from_rfc3339(text) {
        Ok(dt) => Some(OffsetParts {
            local: DateTimeParts {
                date: CalendarDate { year: dt.year(), month: dt.month() as u8, day: dt.day() as u8 },
                time: ClockTime { hour: dt.hour() as u8, minute: dt.minute() as u8, second: dt.second() as u8, nanosecond: dt.nanosecond() },
            },
            offset_seconds: dt.offset().local_minus_utc(),
        }),
        Err(_) => None,
    }
}

/// `chrono::DateTime::<FixedOffset>::parse_from_str(text, fmt)`, as its
/// local components and offset; `None` where the crate reports an error.
///
/// Claims: the result depends on `text` and `fmt` alone
/// (`chrono_parse_offset`).
#[verifier::external_body]
fn parse_offset(text: &str, fmt: &str) -> (res: Option<OffsetParts>)
    ensures
        res == chrono_parse_offset(text@, fmt@),
{
    match chrono::DateTime::parse_from_str(text, fmt) {
        Ok(dt) => Some(OffsetParts {
            local: DateTimeParts {
                date: CalendarDate { year: dt.year(), month: dt.month() as u8, day: dt.day() as u8 },
                time: ClockTime { hour: dt.hour() as u8, minute: dt.minute() as u8, second: dt.second() as u8, nanosecond: dt.nanosecond() },
            },
            offset_seconds: dt.offset().local_minus_utc(),
        }),
        Err(_) => None,
    }
}

/// `chrono::NaiveDateTime::parse_from_str(text, fmt)`, as its components;
/// `None` where the crate reports an error.
///
/// Claims: the result depends on `text` and `fmt` alone
/// (`chrono_parse_naive`).
#[verifier::external_body]
fn parse_naive(text: &str, fmt: &str) -> (res: Option<DateTimeParts>)
    ensures
        res == chrono_parse_naive(text@, fmt@),
{
    match chrono::NaiveDateTime::parse_from_str(text, fmt) {
        Ok(dt) => Some(DateTimeParts {
            date: CalendarDate { year: dt.year(), month: dt.month() as u8, day: dt.day() as u8 },
            time: ClockTime { hour: dt.hour() as u8, minute: dt.minute() as u8, second: dt.second() as u8, nanosecond: dt.nanosecond() },
        }),
        Err(_) => None,
    }
}

/// `chrono::NaiveDate::parse_from_str(text, fmt)`, as its components;
/// `None` where the crate reports an error.
///
/// Claims: the result depends on `text` and `fmt` alone
/// (`chrono_parse_date`).
#[verifier::external_body]
fn parse_date_fmt(text: &str, fmt: &str) -> (res: Option<CalendarDate>)
    ensures
        res == chrono_parse_date(text@, fmt@),
{
    match chrono::NaiveDate::parse_from_str(text, fmt) {
        Ok(d) => Some(CalendarDate { year: d.year(), month: d.month() as u8, day: d.day() as u8 }),
        Err(_) => None,
    }
}

/// `chrono::NaiveTime::parse_from_str(text, fmt)`, as its components;
/// `None` where the crate reports an error.
///
/// Claims: the result depends on `text` and `fmt` alone
/// (`chrono_parse_time`).
#[verifier::external_body]
fn parse_time_fmt(text: &str, fmt: &str) -> (res: Option<ClockTime>)
    ensures
        res == chrono_parse_time(text@, fmt@),
{
    match chrono::NaiveTime::parse_from_str(text, fmt) {
        Ok(t) => Some(ClockTime { hour: t.hour() as u8, minute: t.minute() as u8, second: t.second() as u8, nanosecond: t.nanosecond() }),
        Err(_) => None,
    }
}

/// `int_text(n)` followed by ` seconds`.
pub open spec fn seconds_text(n: i64) -> Seq<char> {
    int_text(n as int) + " seconds"@
}

fn seconds_string(n: i64) -> (res: String)
    ensures
        res@ == seconds_text(n),
{
    let mut s = int_to_text(n);
    push_str(&mut s, " seconds");
    s
}

/// `res` is a text field holding `text`, with the hint `hint`.
pub open spec fn text_field(res: (Field, Option<TypeHint>), text: Seq<char>, hint: Option<TypeHint>) -> bool {
    res.0 matches Field::StringValue(s) && s@ == text && res.1 == hint
}

/// The Data API field of a value of the `time` crate: its text, with the
/// hint of its type; an interval as its whole seconds.
pub fn encode_time_field(value: &TemporalValue) -> (res: (Field, Option<TypeHint>))
    requires
        valid_temporal(*value),
    ensures
        match *value {
            TemporalValue::Date(d) => text_field(res, time_date_display(d), Some(TypeHint::Date)),
            TemporalValue::Time(t) => text_field(res, time_time_display(t), Some(TypeHint::Time)),
            TemporalValue::Timestamp(p) => text_field(res, time_primitive_display(p), Some(TypeHint::Timestamp)),
            TemporalValue::TimestampTz(p) => text_field(res, time_offset_display(p), Some(TypeHint::Timestamp)),
            TemporalValue::Interval(n) => text_field(res, seconds_text(n), None),
        },
{
    match value {
        TemporalValue::Date(d) => (Field::StringValue(time_date_text(*d)), Some(TypeHint::Date)),
        TemporalValue::Time(t) => (Field::StringValue(time_time_text(*t)), Some(TypeHint::Time)),
        TemporalValue::Timestamp(p) => (Field::StringValue(time_primitive_text(*p)), Some(TypeHint::Timestamp)),
        TemporalValue::TimestampTz(p) => (Field::StringValue(time_offset_text(*p)), Some(TypeHint::Timestamp)),
        TemporalValue::Interval(n) => (Field::StringValue(seconds_string(*n)), None),
    }
}

/// The Data API field of a `chrono` value: dates and times as text with
/// the hint of their type (timestamps as `%Y-%m-%d %H:%M:%S%.f`, with a
/// time zone as RFC 3339), an interval as its whole seconds.
pub fn encode_chrono_field(value: &TemporalValue) -> (res: (Field, Option<TypeHint>))
    requires
        valid_chrono_temporal(*value),
    ensures
        match *value {
            TemporalValue::Date(d) => text_field(res, chrono_date_display(d), Some(TypeHint::Date)),
            TemporalValue::Time(t) => text_field(res, chrono_time_display(t), Some(TypeHint::Time)),
            TemporalValue::Timestamp(p) => text_field(res, chrono_timestamp_display(p), Some(TypeHint::Timestamp)),
            TemporalValue::TimestampTz(p) => text_field(res, chrono_rfc3339_display(p), Some(TypeHint::Timestamp)),
            TemporalValue::Interval(n) => text_field(res, seconds_text(n), None),
        },
{
    match value {
        TemporalValue::Date(d) => (Field::StringValue(chrono_date_text(*d)), Some(TypeHint::Date)),
        TemporalValue::Time(t) => (Field::StringValue(chrono_time_text(*t)), Some(TypeHint::Time)),
        TemporalValue::Timestamp(p) => (Field::StringValue(chrono_timestamp_text(*p)), Some(TypeHint::Timestamp)),
        TemporalValue::TimestampTz(p) => (Field::StringValue(chrono_rfc3339_text(*p)), Some(TypeHint::Timestamp)),
        TemporalValue::Interval(n) => (Field::StringValue(seconds_string(*n)), None),
    }
}

/// How `chrono` reads a `TIMESTAMPTZ` text: RFC 3339 first, then four
/// `YYYY-MM-DD HH:MM:SS` forms with an offset, last a timestamp without an
/// offset, taken as UTC.
pub open spec fn timestamptz_reading(s: Seq<char>) -> Result<OffsetParts, DecodeError> {
    match chrono_parse_rfc3339(s) {
        Some(p) => Ok(p),
        None => match chrono_parse_offset(s, "%Y-%m-%d %H:%M:%S%.f%:z"@) {
            Some(p) => Ok(p),
            None => match chrono_parse_offset(s, "%Y-%m-%d %H:%M:%S%.f%z"@) {
                Some(p) => Ok(p),
                None => match chrono_parse_offset(s, "%Y-%m-%d %H:%M:%S%:z"@) {
                    Some(p) => Ok(p),
                    None => match chrono_parse_offset(s, "%Y-%m-%d %H:%M:%S%z"@) {
                        Some(p) => Ok(p),
                        None => match chrono_parse_naive(s, "%Y-%m-%d %H:%M:%S%.f"@) {
                            Some(n) => Ok(OffsetParts { local: n, offset_seconds: 0 }),
                            None => Err(DecodeError::Timestamptz),
                        },
                    },
                },
            },
        },
    }
}

/// Reads a `TIMESTAMPTZ` text as `chrono`'s `DateTime<FixedOffset>` does.
pub fn read_timestamptz(s: &str) -> (res: Result<OffsetParts, DecodeError>)
    ensures
        res == timestamptz_reading(s@),
{
    if let Some(p) = parse_rfc3339(s) {
        return Ok(p);
    }
    if let Some(p) = parse_offset(s, "%Y-%m-%d %H:%M:%S%.f%:z") {
        return Ok(p);
    }
    if let Some(p) = parse_offset(s, "%Y-%m-%d %H:%M:%S%.f%z") {
        return Ok(p);
    }
    if let Some(p) = parse_offset(s, "%Y-%m-%d %H:%M:%S%:z") {
        return Ok(p);
    }
    if let Some(p) = parse_offset(s, "%Y-%m-%d %H:%M:%S%z") {
        return Ok(p);
    }
    match parse_naive(s, "%Y-%m-%d %H:%M:%S%.f") {
        Some(n) => Ok(OffsetParts { local: n, offset_seconds: 0 }),
        None => Err(DecodeError::Timestamptz),
    }
}

/// How `chrono` reads a text as a UTC instant: RFC 3339, else a timestamp
/// without an offset, taken as UTC. The result keeps the offset it read.
pub open spec fn utc_reading(s: Seq<char>) -> Result<OffsetParts, DecodeError> {
    match chrono_parse_rfc3339(s) {
        Some(p) => Ok(p),
        None => match chrono_parse_naive(s, "%Y-%m-%d %H:%M:%S%.f"@) {
            Some(n) => Ok(OffsetParts { local: n, offset_seconds: 0 }),
            None => Err(DecodeError::Timestamptz),
        },
    }
}

/// Reads a text as `chrono`'s `DateTime<Utc>` does.
pub fn read_utc_timestamp(s: &str) -> (res: Result<OffsetParts, DecodeError>)
    ensures
        res == utc_reading(s@),
{
    if let Some(p) = parse_rfc3339(s) {
        return Ok(p);
    }
    match parse_naive(s, "%Y-%m-%d %H:%M:%S%.f") {
        Some(n) => Ok(OffsetParts { local: n, offset_seconds: 0 }),
        None => Err(DecodeError::Timestamptz),
    }
}

/// How `chrono` reads a `TIMESTAMP` text: with a fraction of a second, or without.
pub open spec fn naive_reading(s: Seq<char>) -> Result<DateTimeParts, DecodeError> {
    match chrono_parse_naive(s, "%Y-%m-%d %H:%M:%S%.f"@) {
        Some(p) => Ok(p),
        None => match chrono_parse_naive(s, "%Y-%m-%d %H:%M:%S"@) {
            Some(p) => Ok(p),
            None => Err(DecodeError::Timestamp),
        },
    }
}

/// Reads a `TIMESTAMP` text as `chrono`'s `NaiveDateTime` does.
pub fn read_naive_timestamp(s: &str) -> (res: Result<DateTimeParts, DecodeError>)
    ensures
        res == naive_reading(s@),
{
    if let Some(p) = parse_naive(s, "%Y-%m-%d %H:%M:%S%.f") {
        return Ok(p);
    }
    match parse_naive(s, "%Y-%m-%d %H:%M:%S") {
        Some(p) => Ok(p),
        None => Err(DecodeError::Timestamp),
    }
}

/// The result of reading the text column `offset` with `read`.
pub open spec fn read_column<T>(
    fields: Seq<Field>,
    offset: usize,
    read: spec_fn(Seq<char>) -> Result<T, DecodeError>,
) -> Result<T, DecodeError> {
    match spec_string_at(fields, offset) {
        Ok(s) => read(s),
        Err(e) => Err(e),
    }
}

/// Reads a `TIMESTAMPTZ` column as `chrono`'s `DateTime<FixedOffset>`.
pub fn timestamptz_at(row: &Row, offset: usize) -> (res: Result<OffsetParts, DecodeError>)
    ensures
        res == read_column(row.spec_fields(), offset, |s: Seq<char>| timestamptz_reading(s)),
{
    let s = string_at(row, offset)?;
    read_timestamptz(s.as_str())
}

/// Reads a column as `chrono`'s `DateTime<Utc>`.
pub fn utc_timestamp_at(row: &Row, offset: usize) -> (res: Result<OffsetParts, DecodeError>)
    ensures
        res == read_column(row.spec_fields(), offset, |s: Seq<char>| utc_reading(s)),
{
    let s = string_at(row, offset)?;
    read_utc_timestamp(s.as_str())
}

/// Reads a `TIMESTAMP` column as `chrono`'s `NaiveDateTime`.
pub fn naive_timestamp_at(row: &Row, offset: usize) -> (res: Result<DateTimeParts, DecodeError>)
    ensures
        res == read_column(row.spec_fields(), offset, |s: Seq<char>| naive_reading(s)),
{
    let s = string_at(row, offset)?;
    read_naive_timestamp(s.as_str())
}

/// Reads a `DATE` column as `chrono`'s `NaiveDate` (`%Y-%m-%d`).
pub fn chrono_date_at(row: &Row, offset: usize) -> (res: Result<CalendarDate, DecodeError>)
    ensures
        res == read_column(
            row.spec_fields(),
            offset,
            |s: Seq<char>|
                match chrono_parse_date(s, "%Y-%m-%d"@) {
                    Some(d) => Ok(d),
                    None => Err(DecodeError::Temporal(TemporalError::Date)),
                },
        ),
{
    let s = string_at(row, offset)?;
    match parse_date_fmt(s.as_str(), "%Y-%m-%d") {
        Some(d) => Ok(d),
        None => Err(DecodeError::Temporal(TemporalError::Date)),
    }
}

/// Reads a `TIME` column as `chrono`'s `NaiveTime` (`%H:%M:%S%.f`).
pub fn chrono_time_at(row: &Row, offset: usize) -> (res: Result<ClockTime, DecodeError>)
    ensures
        res == read_column(
            row.spec_fields(),
            offset,
            |s: Seq<char>|
                match chrono_parse_time(s, "%H:%M:%S%.f"@) {
                    Some(t) => Ok(t),
                    None => Err(DecodeError::Temporal(TemporalError::Time)),
                },
        ),
{
    let s = string_at(row, offset)?;
    match parse_time_fmt(s.as_str(), "%H:%M:%S%.f") {
        Some(t) => Ok(t),
        None => Err(DecodeError::Temporal(TemporalError::Time)),
    }
}

/// Reads a `UUID` column, sent as text, as `uuid::Uuid::parse_str` reads it.
pub fn uuid_at(row: &Row, offset: usize) -> (res: Result<[u8; 16], DecodeError>)
    ensures
        match read_column(
            row.spec_fields(),
            offset,
            |s: Seq<char>|
                match uuid_parse(s) {
                    Some(b) => Ok(b),
                    None => Err(DecodeError::Uuid),
                },
        ) {
            Ok(b) => res matches Ok(u) && u@ == b,
            Err(e) => res == Err::<[u8; 16], DecodeError>(e),
        },
{
    let s = string_at(row, offset)?;
    match parse_uuid(s.as_str()) {
        Some(u) => Ok(u),
        None => Err(DecodeError::Uuid),
    }
}

proof fn lemma_int_text_ends(v: int)
    ensures
        int_text(v).len() >= 1,
        int_text(v)[0] == '-' || is_digit(int_text(v)[0]),
        is_digit(int_text(v).last()),
{
    if v < 0 {
        lemma_nat_text_parses((-v) as nat);
        let t = nat_text((-v) as nat);
        assert(int_text(v) == seq!['-'] + t);
        assert(int_text(v).last() == t.last());
        assert(is_digit(t[t.len() - 1]));
    } else {
        lemma_nat_text_parses(v as nat);
        let t = nat_text(v as nat);
        assert(is_digit(t[0]));
        assert(is_digit(t[t.len() - 1]));
    }
}

proof fn lemma_trim_unchanged(s: Seq<char>)
    requires
        s.len() >= 1,
        !is_whitespace(s[0]),
        !is_whitespace(s.last()),
    ensures
        trim(s) == s,
{
}

/// An interval that the encoders write as `N seconds` reads back, with
/// `parse_interval_seconds`, as `N` seconds.
pub proof fn law_interval_text_round_trip(n: i64)
    ensures
        interval_seconds(seconds_text(n)) == Ok::<int, IntervalError>(n as int),
{
    reveal_strlit(" seconds");
    let t = int_text(n as int);
    let s = seconds_text(n);
    lemma_int_text_ends(n as int);
    assert(s.len() == t.len() + 8);
    assert(s[0] == t[0]);
    assert(s.last() == 's');
    lemma_trim_unchanged(s);
    assert(s.skip(s.len() - 8) =~= " seconds"@);
    assert(has_suffix(s, " seconds"@));
    assert(s.take(s.len() - 8) =~= t);
    assert(t.last() == t[t.len() - 1]);
    lemma_trim_unchanged(t);
    law_integer_text_round_trip(n as int, true, i64::MIN as int, i64::MAX as int);
}

/// How the `time` crate's `OffsetDateTime` is read from a `TIMESTAMPTZ`
/// text: RFC 3339 as `time` parses it, else a `YYYY-MM-DD HH:MM:SS[.fff]`
/// timestamp taken as UTC.
pub open spec fn time_timestamptz_reading(s: Seq<char>) -> Result<OffsetParts, DecodeError> {
    match time_parse_rfc3339(s) {
        Some(p) => Ok(p),
        None => match timestamp_parts(s) {
            Ok(n) => Ok(OffsetParts { local: n, offset_seconds: 0 }),
            Err(_) => Err(DecodeError::Timestamptz),
        },
    }
}

/// Reads a `TIMESTAMPTZ` text as the `time` crate's `OffsetDateTime`.
pub fn read_time_timestamptz(s: &str) -> (res: Result<OffsetParts, DecodeError>)
    ensures
        res == time_timestamptz_reading(s@),
{
    if let Some(p) = parse_time_rfc3339(s) {
        return Ok(p);
    }
    match parse_primitive(s) {
        Ok(n) => Ok(OffsetParts { local: n, offset_seconds: 0 }),
        Err(_) => Err(DecodeError::Timestamptz),
    }
}

/// Reads a `TIMESTAMPTZ` column as the `time` crate's `OffsetDateTime`.
pub fn time_timestamptz_at(row: &Row, offset: usize) -> (res: Result<OffsetParts, DecodeError>)
    ensures
        res == read_column(row.spec_fields(), offset, |s: Seq<char>| time_timestamptz_reading(s)),
{
    let s = expect_string(field_at(row, offset)?)?;
    read_time_timestamptz(s)
}

/// Reads a nullable `TIMESTAMPTZ` column as the `time` crate's
/// `OffsetDateTime`.
pub fn opt_time_timestamptz_at(row: &Row, offset: usize) -> (res: Result<Option<OffsetParts>, DecodeError>)
    ensures
        res == read_nullable_column(
            row.spec_fields(),
            offset,
            |s: Seq<char>| time_timestamptz_reading(s),
        ),
{
    let field = field_at(row, offset)?;
    if field_is_null(field) {
        return Ok(None);
    }
    let s = expect_string(field)?;
    match read_time_timestamptz(s) {
        Ok(p) => Ok(Some(p)),
        Err(e) => Err(e),
    }
}

} // verus!
