use drizzle_postgres::columns::{
    BigintBuilder, IntegerBuilder, bigint, bigserial, boolean, bytea, char, date, decimal,
    double_precision, float4, float8, integer, json, jsonb, numeric, serial, smallint, text, time,
    timestamp, timestamptz, timetz, uuid, varchar,
};

#[test]
fn new_builders_have_no_constraints() {
    let b: BigintBuilder<i64> = bigint();
    assert!(!b.is_primary && !b.is_unique && !b.is_not_null && !b.has_default);
    let i = IntegerBuilder::<i32>::new();
    assert!(!i.is_primary && !i.is_enum);
    assert!(!boolean::<bool>().is_not_null);
    assert!(!bytea::<Vec<u8>>().has_default);
}

#[test]
fn primary_key_implies_not_null() {
    let b = bigint::<i64>().primary();
    assert!(b.is_primary && b.is_not_null && !b.is_unique);
    let t = text::<String>().unique().primary();
    assert!(t.is_primary && t.is_not_null && t.is_unique);
    let u = uuid::<[u8; 16]>().primary().default_random();
    assert!(u.is_primary && u.is_not_null && u.default_random && u.has_default);
}

#[test]
fn defaults_set_has_default() {
    assert!(bigint::<i64>().default(5).has_default);
    assert!(integer::<i32>().has_default_fn().has_default);
    assert!(smallint::<i16>().default(1).has_default);
    assert!(varchar::<String>().default("x").has_default);
    assert!(jsonb::<String>().default("{}").has_default);
    let d = date::<()>().default_now();
    assert!(d.default_now && d.has_default);
}

#[test]
fn lengths_and_precision() {
    assert_eq!(char::<String>().length, 1);
    assert_eq!(char::<String>().length(10).length, 10);
    assert_eq!(varchar::<String>().length, 0);
    assert_eq!(varchar::<String>().length(255).length, 255);
    let n = numeric::<()>().precision_scale(10, 2);
    assert_eq!((n.precision, n.scale), (10, 2));
    let d = decimal::<()>();
    assert_eq!((d.precision, d.scale), (0, 0));
}

#[test]
fn serial_columns_are_not_null() {
    let s = serial::<i32>();
    assert!(s.is_not_null && !s.is_bigserial && !s.is_primary);
    let b = bigserial::<i64>().primary();
    assert!(b.is_not_null && b.is_bigserial && b.is_primary);
}

#[test]
fn time_zones() {
    assert!(!time::<()>().with_timezone);
    assert!(timetz::<()>().with_timezone);
    assert!(!timestamp::<()>().with_timezone);
    assert!(timestamptz::<()>().with_timezone);
    assert!(timestamp::<()>().with_timezone().with_timezone);
}

#[test]
fn text_column_kinds() {
    let t = text::<String>().enum_().pgenum().json().not_null();
    assert!(t.is_enum && t.is_pgenum && t.is_json && t.is_not_null && !t.is_primary);
    assert!(integer::<i32>().enum_().is_enum);
    assert!(smallint::<i16>().enum_().is_enum);
}

#[test]
fn float_builders() {
    assert!(double_precision::<()>().not_null().is_not_null);
    assert!(float8::<()>().has_default_fn().has_default);
    assert!(float4::<()>().not_null().is_not_null);
    assert!(!json::<()>().is_not_null);
}

#[test]
fn builders_copy() {
    let a = bigint::<i64>().unique();
    let b = a;
    assert_eq!(a.is_unique, b.is_unique);
}
