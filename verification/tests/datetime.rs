use drizzle_postgres::aws_data_api::datetime::{
    OffsetParts, TemporalValue, chrono_date_at, chrono_time_at, encode_chrono_field, encode_time_field,
    naive_timestamp_at, read_naive_timestamp, read_timestamptz, read_utc_timestamp, timestamptz_at,
    opt_time_timestamptz_at, read_time_timestamptz, time_timestamptz_at, utc_timestamp_at, uuid_at,
};
use drizzle_postgres::aws_data_api::encode::TypeHint;
use drizzle_postgres::aws_data_api::field::{ColumnMeta, DecodeError, Field, row_from_parts};
use drizzle_postgres::aws_data_api::temporal::{CalendarDate, ClockTime, DateTimeParts, TemporalError};

fn parts(y: i32, mo: u8, d: u8, h: u8, mi: u8, s: u8, ns: u32) -> DateTimeParts {
    DateTimeParts {
        date: CalendarDate { year: y, month: mo, day: d },
        time: ClockTime { hour: h, minute: mi, second: s, nanosecond: ns },
    }
}

fn text(f: &(Field, Option<TypeHint>)) -> &str {
    match &f.0 {
        Field::StringValue(s) => s.as_str(),
        _ => panic!("expected text"),
    }
}

#[test]
fn time_crate_values_as_fields() {
    let f = encode_time_field(&TemporalValue::Date(CalendarDate { year: 2024, month: 2, day: 29 }));
    assert_eq!(text(&f), "2024-02-29");
    assert_eq!(f.1, Some(TypeHint::Date));
    let f = encode_time_field(&TemporalValue::Interval(-30));
    assert_eq!(text(&f), "-30 seconds");
    assert_eq!(f.1, None);
    let f = encode_time_field(&TemporalValue::Timestamp(parts(2020, 1, 2, 3, 4, 5, 0)));
    assert_eq!(f.1, Some(TypeHint::Timestamp));
    assert!(text(&f).starts_with("2020-01-02"));
}

#[test]
fn chrono_values_as_fields() {
    let f = encode_chrono_field(&TemporalValue::Time(ClockTime { hour: 7, minute: 8, second: 9, nanosecond: 0 }));
    assert_eq!(text(&f), "07:08:09");
    assert_eq!(f.1, Some(TypeHint::Time));
    let f = encode_chrono_field(&TemporalValue::Timestamp(parts(2020, 1, 2, 3, 4, 5, 500_000_000)));
    assert_eq!(text(&f), "2020-01-02 03:04:05.500");
    let f = encode_chrono_field(&TemporalValue::TimestampTz(OffsetParts {
        local: parts(2020, 1, 2, 3, 4, 5, 0),
        offset_seconds: 3600,
    }));
    assert_eq!(text(&f), "2020-01-02T03:04:05+01:00");
    assert_eq!(text(&encode_chrono_field(&TemporalValue::Interval(60))), "60 seconds");
}

#[test]
fn reading_timestamps_with_time_zones() {
    let p = read_timestamptz("2020-01-02T03:04:05+02:00").unwrap();
    assert_eq!(p.offset_seconds, 7200);
    assert_eq!(p.local, parts(2020, 1, 2, 3, 4, 5, 0));
    let p = read_timestamptz("2020-01-02 03:04:05.25+05:30").unwrap();
    assert_eq!(p.offset_seconds, 19_800);
    assert_eq!(p.local.time.nanosecond, 250_000_000);
    let p = read_timestamptz("2020-01-02 03:04:05").unwrap();
    assert_eq!(p.offset_seconds, 0);
    assert_eq!(read_timestamptz("yesterday"), Err(DecodeError::Timestamptz));
    let p = read_utc_timestamp("2020-01-02 03:04:05.1").unwrap();
    assert_eq!(p.offset_seconds, 0);
    assert_eq!(read_utc_timestamp("2020-01-02 03:04:05+01"), Err(DecodeError::Timestamptz));
}

#[test]
fn reading_naive_timestamps() {
    assert_eq!(read_naive_timestamp("2021-05-06 07:08:09").unwrap(), parts(2021, 5, 6, 7, 8, 9, 0));
    assert_eq!(read_naive_timestamp("2021-05-06T07:08:09"), Err(DecodeError::Timestamp));
}

#[test]
fn reading_columns() {
    let row = row_from_parts(
        vec![
            Field::StringValue("2021-05-06 07:08:09+00:00".to_string()),
            Field::StringValue("2021-05-06".to_string()),
            Field::StringValue("07:08:09.5".to_string()),
            Field::LongValue(1),
        ],
        vec![ColumnMeta { name: None }, ColumnMeta { name: None }, ColumnMeta { name: None }, ColumnMeta { name: None }],
    );
    assert_eq!(timestamptz_at(&row, 0).unwrap().local.date.day, 6);
    assert_eq!(utc_timestamp_at(&row, 0).unwrap().offset_seconds, 0);
    assert_eq!(chrono_date_at(&row, 1), Ok(CalendarDate { year: 2021, month: 5, day: 6 }));
    assert_eq!(chrono_time_at(&row, 2).unwrap().nanosecond, 500_000_000);
    assert_eq!(chrono_date_at(&row, 2), Err(DecodeError::Temporal(TemporalError::Date)));
    assert!(naive_timestamp_at(&row, 3).is_err());
}

#[test]
fn reading_uuid_columns() {
    let row = row_from_parts(
        vec![
            Field::StringValue("00000000-0000-0000-0000-0000000000ff".to_string()),
            Field::StringValue("nope".to_string()),
        ],
        vec![ColumnMeta { name: None }, ColumnMeta { name: None }],
    );
    let mut expected = [0u8; 16];
    expected[15] = 0xff;
    assert_eq!(uuid_at(&row, 0), Ok(expected));
    assert_eq!(uuid_at(&row, 1), Err(DecodeError::Uuid));
}

#[test]
fn interval_text_reads_back() {
    use_interval_round_trip(-86_400);
    use_interval_round_trip(0);
    use_interval_round_trip(i64::MAX);
}

fn use_interval_round_trip(n: i64) {
    let f = encode_time_field(&TemporalValue::Interval(n));
    let text = match f.0 {
        Field::StringValue(s) => s,
        _ => panic!("expected text"),
    };
    assert_eq!(drizzle_postgres::aws_data_api::interval::parse_interval_seconds(&text), Ok(n));
}

#[test]
fn chrono_values_encode_across_chrono_range() {
    let far = encode_chrono_field(&TemporalValue::Date(CalendarDate { year: 20000, month: 3, day: 4 }));
    assert_eq!(text(&far), "+20000-03-04");
    let leap = encode_chrono_field(&TemporalValue::Time(ClockTime { hour: 23, minute: 59, second: 59, nanosecond: 1_500_000_000 }));
    assert_eq!(text(&leap), "23:59:60.500");
}

#[test]
fn dates_print_with_padded_years() {
    let old = TemporalValue::Date(CalendarDate { year: -44, month: 3, day: 15 });
    assert_eq!(text(&encode_time_field(&old)), "-0044-03-15");
    assert_eq!(text(&encode_chrono_field(&old)), "-0044-03-15");
    let early = TemporalValue::Date(CalendarDate { year: 5, month: 1, day: 2 });
    assert_eq!(text(&encode_time_field(&early)), "0005-01-02");
    assert_eq!(text(&encode_chrono_field(&early)), "0005-01-02");
}

#[test]
fn time_offset_datetimes_read_from_columns() {
    let row = row_from_parts(
        vec![
            Field::StringValue("2021-05-06T07:08:09+02:00".to_string()),
            Field::StringValue("2021-05-06 07:08:09.25".to_string()),
            Field::StringValue("yesterday".to_string()),
            Field::IsNull(true),
        ],
        vec![ColumnMeta { name: None }, ColumnMeta { name: None }, ColumnMeta { name: None }, ColumnMeta { name: None }],
    );
    let a = time_timestamptz_at(&row, 0).unwrap();
    assert_eq!(a.offset_seconds, 7200);
    assert_eq!(a.local, parts(2021, 5, 6, 7, 8, 9, 0));
    let b = time_timestamptz_at(&row, 1).unwrap();
    assert_eq!(b, OffsetParts { local: parts(2021, 5, 6, 7, 8, 9, 250_000_000), offset_seconds: 0 });
    assert_eq!(time_timestamptz_at(&row, 2), Err(DecodeError::Timestamptz));
    assert_eq!(opt_time_timestamptz_at(&row, 3), Ok(None));
    assert_eq!(opt_time_timestamptz_at(&row, 1), Ok(Some(b)));
    assert_eq!(read_time_timestamptz("2021-05-06T07:08:09Z").unwrap().offset_seconds, 0);
}
