use bit_vec::BitVec;
use drizzle_postgres::aws_data_api::encode::{TypeHint, encode_array, encode_field, encode_param};
use drizzle_postgres::aws_data_api::field::{
    ArrayValue, ColumnMeta, DecodeError, Field, FieldKind, bool_at, bytes_at, date_at, decode_array_i64,
    i16_at, i32_at, interval_at, is_null_at, opt_i32_at, opt_string_at, parse_bits, row_from_parts,
    string_at, time_at, timestamp_at, u8_at,
};
use drizzle_postgres::aws_data_api::geometry::{path_point_texts, point_xy_texts, rect_corner_texts};
use drizzle_postgres::aws_data_api::interval::{IntervalError, parse_interval_seconds};
use drizzle_postgres::aws_data_api::temporal::{TemporalError, parse_date, parse_primitive, parse_time};
use drizzle_postgres::values::PostgresValue;

#[test]
fn interval_in_seconds() {
    assert_eq!(parse_interval_seconds("90 seconds"), Ok(90));
    assert_eq!(parse_interval_seconds(" 1 second "), Ok(1));
    assert_eq!(parse_interval_seconds("-5 seconds"), Ok(-5));
}

#[test]
fn interval_with_days_and_clock() {
    assert_eq!(parse_interval_seconds("2 days"), Ok(172_800));
    assert_eq!(parse_interval_seconds("1 day 01:02:03"), Ok(86_400 + 3_723));
    assert_eq!(parse_interval_seconds("01:00:00.75"), Ok(3_600));
    assert_eq!(parse_interval_seconds("-00:01:30"), Ok(-90));
}

#[test]
fn interval_errors() {
    assert_eq!(parse_interval_seconds("x seconds"), Err(IntervalError::TotalSeconds));
    assert_eq!(parse_interval_seconds("x days"), Err(IntervalError::Days));
    assert_eq!(parse_interval_seconds("ab:00:00"), Err(IntervalError::Hours));
    assert_eq!(parse_interval_seconds("10"), Err(IntervalError::MissingMinutes));
    assert_eq!(parse_interval_seconds("10:xx:00"), Err(IntervalError::Minutes));
    assert_eq!(parse_interval_seconds("10:00"), Err(IntervalError::MissingSeconds));
    assert_eq!(parse_interval_seconds("10:00:zz"), Err(IntervalError::Seconds));
}

#[test]
fn dates_and_times() {
    let d = parse_date("2024-02-29").unwrap();
    assert_eq!((d.year, d.month, d.day), (2024, 2, 29));
    assert_eq!(parse_date("2023-02-29"), Err(TemporalError::Date));
    assert_eq!(parse_date("2023-13-01"), Err(TemporalError::MonthRange));
    assert_eq!(parse_date("2023"), Err(TemporalError::MissingMonth));
    let t = parse_time("12:34:56.5").unwrap();
    assert_eq!((t.hour, t.minute, t.second, t.nanosecond), (12, 34, 56, 500_000_000));
    let t = parse_time("00:00:01").unwrap();
    assert_eq!(t.nanosecond, 0);
    assert!(parse_time("24:00:00").is_err());
    let p = parse_primitive("2020-01-02 03:04:05").unwrap();
    assert_eq!((p.date.year, p.date.month, p.date.day), (2020, 1, 2));
    assert_eq!((p.time.hour, p.time.minute, p.time.second), (3, 4, 5));
}

fn meta(n: usize) -> Vec<ColumnMeta> {
    (0..n).map(|i| ColumnMeta { name: Some(format!("c{i}")) }).collect()
}

#[test]
fn reading_row_fields() {
    let row = row_from_parts(
        vec![
            Field::LongValue(300),
            Field::IsNull(true),
            Field::StringValue("hi".to_string()),
            Field::BooleanValue(true),
            Field::BlobValue(vec![1, 2]),
            Field::StringValue("1 day".to_string()),
            Field::StringValue("2021-05-06".to_string()),
            Field::StringValue("07:08:09".to_string()),
            Field::StringValue("2021-05-06 07:08:09".to_string()),
        ],
        meta(9),
    );
    assert_eq!(i32_at(&row, 0), Ok(300));
    assert_eq!(i16_at(&row, 0), Ok(300));
    assert_eq!(u8_at(&row, 0), Err(DecodeError::IntOutOfRange(300)));
    assert_eq!(is_null_at(&row, 1), Ok(true));
    assert_eq!(opt_i32_at(&row, 1), Ok(None));
    assert_eq!(i32_at(&row, 1), Err(DecodeError::UnexpectedNull(FieldKind::Long)));
    assert_eq!(string_at(&row, 2).unwrap(), "hi");
    assert_eq!(opt_string_at(&row, 1).unwrap(), None);
    assert_eq!(bool_at(&row, 3), Ok(true));
    assert_eq!(bool_at(&row, 2), Err(DecodeError::WrongKind(FieldKind::Boolean)));
    assert_eq!(bytes_at(&row, 4).unwrap(), vec![1, 2]);
    assert_eq!(interval_at(&row, 5), Ok(86_400));
    assert_eq!(date_at(&row, 6).unwrap().day, 6);
    assert_eq!(time_at(&row, 7).unwrap().second, 9);
    assert_eq!(timestamp_at(&row, 8).unwrap().time.minute, 8);
    assert_eq!(i32_at(&row, 9), Err(DecodeError::ColumnOutOfRange { columns: 9, offset: 9 }));
}

#[test]
fn bits_and_arrays() {
    let bits = parse_bits("1011").unwrap();
    assert_eq!(bits.len(), 4);
    assert!(bits.get(0).unwrap() && !bits.get(1).unwrap());
    assert_eq!(parse_bits("10x").unwrap_err(), DecodeError::BadBit('x'));
    assert_eq!(decode_array_i64(&ArrayValue::LongValues(vec![1, 2, 3])), Ok(vec![1, 2, 3]));
    assert_eq!(
        decode_array_i64(&ArrayValue::BooleanValues(vec![true])),
        Err(DecodeError::WrongKind(FieldKind::LongArray))
    );
}

#[test]
fn encoding_parameters() {
    let (f, hint) = encode_field(&PostgresValue::Integer(5));
    assert!(matches!(f, Field::LongValue(5)));
    assert_eq!(hint, None);
    let (f, hint) = encode_field(&PostgresValue::Null);
    assert!(matches!(f, Field::IsNull(true)));
    assert_eq!(hint, None);
    let (f, hint) = encode_field(&PostgresValue::Uuid([0u8; 16]));
    assert!(matches!(f, Field::StringValue(ref s) if s == "00000000-0000-0000-0000-000000000000"));
    assert_eq!(hint, Some(TypeHint::Uuid));
    let (f, hint) = encode_field(&PostgresValue::Jsonb("{}".to_string()));
    assert!(matches!(f, Field::StringValue(ref s) if s == "{}"));
    assert_eq!(hint, Some(TypeHint::Json));
    let mut bv = BitVec::new();
    bv.push(true);
    bv.push(false);
    let (f, _) = encode_field(&PostgresValue::BitVec(bv));
    assert!(matches!(f, Field::StringValue(ref s) if s == "10"));
    let p = encode_param("id", &PostgresValue::Bigint(9));
    assert_eq!(p.name, "id");
    assert!(matches!(p.value, Field::LongValue(9)));
}

#[test]
fn encoding_arrays() {
    let f = encode_array(&[PostgresValue::Smallint(1), PostgresValue::Bigint(2)]);
    assert!(matches!(f, Field::ArrayValue(ArrayValue::LongValues(ref v)) if v == &vec![1, 2]));
    let f = encode_array(&[PostgresValue::Boolean(true)]);
    assert!(matches!(f, Field::ArrayValue(ArrayValue::BooleanValues(ref v)) if v == &vec![true]));
    let f = encode_array(&[PostgresValue::Text("a".to_string()), PostgresValue::Integer(3)]);
    assert!(matches!(f, Field::ArrayValue(ArrayValue::StringValues(ref v)) if v == &vec!["a".to_string(), "3".to_string()]));
}

#[test]
fn bit_text_reads_back() {
    let mut bv = BitVec::new();
    for b in [true, false, false, true, true] {
        bv.push(b);
    }
    let text = drizzle_postgres::bits::bits_to_text(&bv);
    assert_eq!(text, "10011");
    assert_eq!(parse_bits(&text).unwrap(), bv);
}

#[test]
fn point_texts_split_at_the_first_commas() {
    assert_eq!(point_xy_texts("(1.5, -2)"), ("1.5".to_string(), Some("-2".to_string())));
    assert_eq!(point_xy_texts("((3,4))"), ("3".to_string(), Some("4".to_string())));
    assert_eq!(point_xy_texts("7"), ("7".to_string(), None));
    assert_eq!(point_xy_texts("(1,2,3)"), ("1".to_string(), Some("2".to_string())));
}

#[test]
fn box_texts_split_at_the_corner_separator() {
    assert_eq!(
        rect_corner_texts(" ((1,2),(3,4)) "),
        Some(("1,2".to_string(), "3,4".to_string()))
    );
    assert_eq!(rect_corner_texts("(1,2)"), None);
}

#[test]
fn path_texts_split_at_top_level_commas() {
    // The parentheses of the first and last points go with the brackets,
    // so the pieces do not line up with the points.
    assert_eq!(path_point_texts("[(1,2)]"), vec!["1".to_string(), "2".to_string()]);
    assert_eq!(
        path_point_texts("[(1,2),(3,4)]"),
        vec!["1".to_string(), "2),(3".to_string(), "4".to_string()]
    );
    assert_eq!(path_point_texts("[]"), Vec::<String>::new());
    assert_eq!(path_point_texts("(a, ,b)"), vec!["a".to_string(), "b".to_string()]);
}
