use drizzle_postgres::conversions::{ConversionError, FromPostgresValue, enum_from_postgres_bytes, parse_bool_word};
use drizzle_postgres::traits::PostgresEnum;
use drizzle_postgres::values::PostgresValue;

#[test]
fn integers_from_wider_integers() {
    assert_eq!(i16::from_postgres_i32(300), Ok(300));
    assert_eq!(i16::from_postgres_i32(40_000), Err(ConversionError::OutOfRange));
    assert_eq!(u8::from_postgres_i64(-1), Err(ConversionError::OutOfRange));
    assert_eq!(u64::from_postgres_i64(i64::MAX), Ok(i64::MAX as u64));
    assert_eq!(i64::from_postgres_i16(-5), Ok(-5));
    assert_eq!(i32::from_postgres_bool(true), Ok(1));
    assert_eq!(u16::from_postgres_bool(false), Ok(0));
}

#[test]
fn integers_from_text() {
    assert_eq!(i32::from_postgres_text("42"), Ok(42));
    assert_eq!(i32::from_postgres_text("+42"), Ok(42));
    assert_eq!(i32::from_postgres_text("-42"), Ok(-42));
    assert_eq!(u32::from_postgres_text("-1"), Err(ConversionError::InvalidText));
    assert_eq!(i8::from_postgres_text("128"), Err(ConversionError::InvalidText));
    assert_eq!(i64::from_postgres_text(" 1"), Err(ConversionError::InvalidText));
    assert_eq!(i64::from_postgres_text(""), Err(ConversionError::InvalidText));
    assert_eq!(usize::from_postgres_text("18446744073709551615"), Ok(usize::MAX));
    assert_eq!(i16::from_postgres_bytes(&[1]), Err(ConversionError::Unsupported));
}

#[test]
fn booleans() {
    assert_eq!(bool::from_postgres_i32(0), Ok(false));
    assert_eq!(bool::from_postgres_i64(-3), Ok(true));
    for word in ["true", "T", "1", "Yes", "ON"] {
        assert_eq!(bool::from_postgres_text(word), Ok(true), "{word}");
    }
    for word in ["false", "F", "0", "NO", "Off"] {
        assert_eq!(bool::from_postgres_text(word), Ok(false), "{word}");
    }
    assert_eq!(bool::from_postgres_text("maybe"), Err(ConversionError::InvalidText));
    assert_eq!(bool::from_postgres_text(" true"), Err(ConversionError::InvalidText));
    assert_eq!(parse_bool_word("tRuE"), Some(true));
    assert_eq!(bool::from_postgres_bytes(b"t"), Err(ConversionError::Unsupported));
}

#[test]
fn strings() {
    assert_eq!(String::from_postgres_bool(true), Ok("true".to_string()));
    assert_eq!(String::from_postgres_i64(-12), Ok("-12".to_string()));
    assert_eq!(String::from_postgres_text("héllo"), Ok("héllo".to_string()));
    assert_eq!(String::from_postgres_bytes("日本".as_bytes()), Ok("日本".to_string()));
    assert_eq!(String::from_postgres_bytes(&[0xff, 0xfe]), Err(ConversionError::InvalidUtf8));
}

#[test]
fn bytes() {
    assert_eq!(Vec::<u8>::from_postgres_i16(0x0102), Ok(vec![2, 1]));
    assert_eq!(Vec::<u8>::from_postgres_i32(-1), Ok(vec![0xff; 4]));
    assert_eq!(Vec::<u8>::from_postgres_i64(1), Ok(vec![1, 0, 0, 0, 0, 0, 0, 0]));
    assert_eq!(Vec::<u8>::from_postgres_text("é"), Ok(vec![0xc3, 0xa9]));
    assert_eq!(Vec::<u8>::from_postgres_bytes(&[5, 6]), Ok(vec![5, 6]));
    assert_eq!(Vec::<u8>::from_postgres_bool(true), Err(ConversionError::Unsupported));
}

#[test]
fn nulls_and_options() {
    assert_eq!(i32::from_postgres_null(), Err(ConversionError::UnexpectedNull));
    assert_eq!(Option::<i32>::from_postgres_null(), Ok(None));
    assert_eq!(Option::<i32>::from_postgres_i32(5), Ok(Some(5)));
    assert_eq!(Option::<u8>::from_postgres_i32(500), Err(ConversionError::OutOfRange));
    assert_eq!(String::from_postgres_uuid([0; 16]), Err(ConversionError::Unsupported));
}

#[test]
fn mac_addresses_and_arrays() {
    assert_eq!(<[u8; 6]>::from_postgres_macaddr([1, 2, 3, 4, 5, 6]), Ok([1, 2, 3, 4, 5, 6]));
    assert_eq!(<[u8; 8]>::from_postgres_macaddr8([8; 8]), Ok([8; 8]));
    assert_eq!(<[u8; 6]>::from_postgres_text("x"), Err(ConversionError::Unsupported));
    let arr = Vec::<PostgresValue>::from_postgres_array(vec![PostgresValue::Integer(1)]).unwrap();
    assert_eq!(arr.len(), 1);
    assert!(i32::from_postgres_array(vec![]).is_err());
}

#[test]
fn values_from_rust_values() {
    assert!(matches!(PostgresValue::from(7i8), PostgresValue::Smallint(7)));
    assert!(matches!(PostgresValue::from(200u8), PostgresValue::Smallint(200)));
    assert!(matches!(PostgresValue::from(65_535u16), PostgresValue::Integer(65_535)));
    assert!(matches!(PostgresValue::from(u64::MAX), PostgresValue::Bigint(i64::MAX)));
    assert!(matches!(PostgresValue::from(5u64), PostgresValue::Bigint(5)));
    assert!(matches!(PostgresValue::from(usize::MAX), PostgresValue::Bigint(i64::MAX)));
    assert!(matches!(PostgresValue::from(-3isize), PostgresValue::Bigint(-3)));
    assert!(matches!(PostgresValue::from(true), PostgresValue::Boolean(true)));
    assert!(matches!(PostgresValue::from("s".to_string()), PostgresValue::Text(ref s) if s == "s"));
}

#[test]
fn values_into_rust_values() {
    assert_eq!(i16::try_from(PostgresValue::Integer(300)), Ok(300));
    assert_eq!(i16::try_from(PostgresValue::Bigint(1 << 40)), Err(ConversionError::OutOfRange));
    assert_eq!(i64::try_from(PostgresValue::Smallint(-2)), Ok(-2));
    assert_eq!(i32::try_from(PostgresValue::Bigint(1 << 40)), Err(ConversionError::OutOfRange));
    assert_eq!(i32::try_from(PostgresValue::Text("1".to_string())), Err(ConversionError::Unsupported));
    assert_eq!(bool::try_from(PostgresValue::Boolean(false)), Ok(false));
    assert_eq!(String::try_from(PostgresValue::Text("x".to_string())), Ok("x".to_string()));
    assert_eq!(Vec::<u8>::try_from(PostgresValue::Bytea(vec![1])), Ok(vec![1]));
    assert_eq!(<[u8; 6]>::try_from(PostgresValue::MacAddr([1; 6])), Ok([1; 6]));
    assert_eq!(<[u8; 8]>::try_from(PostgresValue::MacAddr8([2; 8])), Ok([2; 8]));
    assert_eq!(bool::try_from(PostgresValue::Null), Err(ConversionError::Unsupported));
    assert_eq!(Vec::<PostgresValue>::try_from(PostgresValue::Array(vec![PostgresValue::Null])).unwrap().len(), 1);
    let back = i32::try_from(PostgresValue::from(-77i32));
    assert_eq!(back, Ok(-77));
    let text = String::from_postgres_i64(i64::MIN).unwrap();
    assert_eq!(i64::from_postgres_text(&text), Ok(i64::MIN));
}

#[test]
fn uuids_from_values_and_text() {
    assert_eq!(PostgresValue::Uuid([7; 16]).try_into_uuid(), Ok([7; 16]));
    let mut expected = [0u8; 16];
    expected[15] = 1;
    assert_eq!(
        PostgresValue::Text("00000000-0000-0000-0000-000000000001".to_string()).try_into_uuid(),
        Ok(expected)
    );
    assert_eq!(
        PostgresValue::Text("not a uuid".to_string()).try_into_uuid(),
        Err(ConversionError::InvalidText)
    );
    assert_eq!(PostgresValue::Integer(1).try_into_uuid(), Err(ConversionError::Unsupported));
}

#[test]
fn values_convert_by_their_kind() {
    assert_eq!(PostgresValue::Integer(7).convert::<i64>(), Ok(7));
    assert_eq!(PostgresValue::Smallint(300).convert::<u8>(), Err(ConversionError::OutOfRange));
    assert_eq!(PostgresValue::Text("42".to_string()).convert::<i32>(), Ok(42));
    assert_eq!(PostgresValue::Enum("active".to_string()).convert::<String>(), Ok("active".to_string()));
    assert_eq!(PostgresValue::Boolean(true).convert::<Option<i32>>(), Ok(Some(1)));
    assert_eq!(PostgresValue::Null.convert::<Option<i32>>(), Ok(None));
    assert_eq!(PostgresValue::Null.convert::<i32>(), Err(ConversionError::UnexpectedNull));
    assert_eq!(PostgresValue::Bytea(vec![1, 2]).convert::<Vec<u8>>(), Ok(vec![1, 2]));
    assert_eq!(PostgresValue::MacAddr([3; 6]).convert::<[u8; 6]>(), Ok([3; 6]));
    assert_eq!(PostgresValue::Json("{}".to_string()).convert::<String>(), Err(ConversionError::Unsupported));
    assert_eq!(PostgresValue::Uuid([0; 16]).convert::<i64>(), Err(ConversionError::Unsupported));
}

#[test]
fn values_convert_by_reference() {
    let v = PostgresValue::Text("-5".to_string());
    assert_eq!(v.convert_ref::<i16>(), Ok(-5));
    assert_eq!(v.convert_ref::<String>(), Ok("-5".to_string()));
    let arr = PostgresValue::Array(vec![PostgresValue::Integer(1), PostgresValue::Null]);
    let items = arr.convert_ref::<Vec<PostgresValue>>().unwrap();
    assert_eq!(items.len(), 2);
    assert!(matches!(items[0], PostgresValue::Integer(1)));
    assert!(matches!(arr, PostgresValue::Array(ref a) if a.len() == 2));
    assert_eq!(PostgresValue::Bigint(9).convert_ref::<Option<u64>>(), Ok(Some(9)));
}

#[test]
fn bit_strings_convert_and_clone() {
    let mut bits = bit_vec::BitVec::new();
    bits.push(true);
    bits.push(false);
    let v = PostgresValue::BitVec(bits.clone());
    let copy = v.clone();
    assert_eq!(copy.to_text(), "10");
    assert_eq!(v.convert_ref::<bit_vec::BitVec>(), Ok(bits.clone()));
    assert_eq!(v.convert::<Option<bit_vec::BitVec>>(), Ok(Some(bits)));
    assert_eq!(bit_vec::BitVec::from_postgres_i32(1), Err(ConversionError::Unsupported));
    assert_eq!(i32::from_postgres_bitvec(bit_vec::BitVec::new()), Err(ConversionError::Unsupported));
}

#[test]
fn cloned_values_keep_their_contents() {
    let v = PostgresValue::Array(vec![
        PostgresValue::Text("a".to_string()),
        PostgresValue::Bytea(vec![0xab]),
        PostgresValue::Array(vec![PostgresValue::Boolean(true)]),
    ]);
    let c = v.clone();
    assert_eq!(c.to_text(), v.to_text());
    assert_eq!(c.to_text(), "{a,\\xab,{true}}");
}

#[derive(Debug, PartialEq)]
enum Mood {
    Happy,
    Sad,
}

impl PostgresEnum for Mood {
    fn enum_type_name(&self) -> &'static str {
        "mood"
    }

    fn variant_name(&self) -> &'static str {
        match self {
            Mood::Happy => "happy",
            Mood::Sad => "sad",
        }
    }

    fn try_from_str(value: &str) -> Result<Self, ConversionError> {
        match value {
            "happy" => Ok(Mood::Happy),
            "sad" => Ok(Mood::Sad),
            _ => Err(ConversionError::InvalidText),
        }
    }
}

impl FromPostgresValue for Mood {
    fn from_postgres_bool(_value: bool) -> Result<Self, ConversionError> {
        Err(ConversionError::Unsupported)
    }

    fn from_postgres_i16(_value: i16) -> Result<Self, ConversionError> {
        Err(ConversionError::Unsupported)
    }

    fn from_postgres_i32(_value: i32) -> Result<Self, ConversionError> {
        Err(ConversionError::Unsupported)
    }

    fn from_postgres_i64(_value: i64) -> Result<Self, ConversionError> {
        Err(ConversionError::Unsupported)
    }

    fn from_postgres_text(value: &str) -> Result<Self, ConversionError> {
        Mood::try_from_str(value)
    }

    fn from_postgres_bytes(value: &[u8]) -> Result<Self, ConversionError> {
        enum_from_postgres_bytes(value)
    }
}

#[test]
fn enums_read_back_from_their_variant_names() {
    assert_eq!(Mood::from_postgres_text("sad"), Ok(Mood::Sad));
    assert_eq!(Mood::from_postgres_text("angry"), Err(ConversionError::InvalidText));
    assert_eq!(Mood::from_postgres_bytes(b"happy"), Ok(Mood::Happy));
    assert_eq!(Mood::from_postgres_bytes(&[0xff, 0xfe]), Err(ConversionError::InvalidUtf8));
    assert_eq!(Mood::from_postgres_i32(1), Err(ConversionError::Unsupported));
    assert_eq!(PostgresValue::Enum("happy".to_string()).convert::<Mood>(), Ok(Mood::Happy));
    assert_eq!(PostgresValue::Text("sad".to_string()).convert::<Option<Mood>>(), Ok(Some(Mood::Sad)));
    assert_eq!(Mood::Sad.variant_name(), "sad");
    assert_eq!(Mood::Happy.enum_type_name(), "mood");
}

#[test]
fn uuid_text_reads_back() {
    let bytes = [0x55, 0x0e, 0x84, 0x00, 0xe2, 0x9b, 0x41, 0xd4, 0xa7, 0x16, 0x44, 0x66, 0x55, 0x44, 0x00, 0x00];
    let text = PostgresValue::Uuid(bytes).to_text();
    assert_eq!(text, "550e8400-e29b-41d4-a716-446655440000");
    assert_eq!(PostgresValue::Text(text).try_into_uuid(), Ok(bytes));
}
