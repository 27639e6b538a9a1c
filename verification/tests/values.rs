use bit_vec::BitVec;
use drizzle_postgres::values::{PostgresValue, int_to_text};

#[test]
fn integers_print_in_decimal() {
    assert_eq!(int_to_text(0), "0");
    assert_eq!(int_to_text(-42), "-42");
    assert_eq!(int_to_text(i64::MIN), "-9223372036854775808");
    assert_eq!(PostgresValue::Smallint(7).to_text(), "7");
    assert_eq!(PostgresValue::Bigint(i64::MAX).to_text(), "9223372036854775807");
}

#[test]
fn display_of_values() {
    assert_eq!(PostgresValue::Boolean(true).to_text(), "true");
    assert_eq!(PostgresValue::Null.to_text(), "");
    assert_eq!(PostgresValue::Text("abc".to_string()).to_text(), "abc");
    assert_eq!(
        PostgresValue::Uuid([0x12; 16]).to_text(),
        "12121212-1212-1212-1212-121212121212"
    );
    assert_eq!(PostgresValue::MacAddr([0, 1, 2, 0xab, 0xcd, 0xef]).to_text(), "00:01:02:ab:cd:ef");
    let mut bv = BitVec::new();
    bv.push(false);
    bv.push(true);
    assert_eq!(PostgresValue::BitVec(bv).to_text(), "01");
}

#[test]
fn accessors_select_one_variant() {
    let v = PostgresValue::Integer(3);
    assert_eq!(v.as_i32(), Some(3));
    assert_eq!(v.as_i64(), None);
    assert!(!v.is_null());
    assert!(PostgresValue::Null.is_null());
    assert_eq!(PostgresValue::Text("x".to_string()).as_str(), Some("x"));
    assert_eq!(PostgresValue::Bytea(vec![9]).as_bytes(), Some(&[9u8][..]));
}

#[test]
fn the_default_value_is_null() {
    assert!(PostgresValue::default().is_null());
}

#[test]
fn owned_values_are_the_values_themselves() {
    let v: drizzle_postgres::values::OwnedPostgresValue = PostgresValue::Text("x".to_string()).into_owned();
    assert!(matches!(v, PostgresValue::Text(ref s) if s == "x"));
}
