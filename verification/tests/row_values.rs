use drizzle_postgres::row_values::{PostgresInsertValue, PostgresUpdateValue, ValueWrapper};
use drizzle_postgres::sql::SQL;
use drizzle_postgres::values::PostgresValue;

#[test]
fn insert_values() {
    let v = PostgresInsertValue::<i32>::from_value(PostgresValue::Integer(4));
    match v {
        PostgresInsertValue::Value(w) => assert_eq!(w.value.sql(), "$1"),
        _ => panic!("expected a value"),
    }
    assert!(matches!(PostgresInsertValue::<i32>::from_option(None), PostgresInsertValue::Omit));
    match PostgresInsertValue::<i32>::from_option(Some(SQL::raw("DEFAULT"))) {
        PostgresInsertValue::Value(w) => assert_eq!(w.value.sql(), "DEFAULT"),
        _ => panic!("expected a value"),
    }
}

#[test]
fn into_owned_keeps_the_first_bound_value() {
    let v = PostgresInsertValue::<i32>::from_value(PostgresValue::Integer(9)).into_owned();
    match v {
        PostgresInsertValue::Value(w) => {
            let params = w.value.into_params();
            assert!(matches!(params[0].value, Some(PostgresValue::Integer(9))));
        },
        _ => panic!("expected a value"),
    }
    let v = PostgresInsertValue::<i32>::from_placeholder("x").into_owned();
    match v {
        PostgresInsertValue::Value(w) => {
            let params = w.value.into_params();
            assert!(matches!(params[0].value, Some(PostgresValue::Null)));
            assert!(params[0].placeholder.is_none());
        },
        _ => panic!("expected a value"),
    }
    let raw = PostgresInsertValue::<i32>::Value(ValueWrapper::new(SQL::raw("now()"))).into_owned();
    match raw {
        PostgresInsertValue::Value(w) => assert!(matches!(w.value.into_params()[0].value, Some(PostgresValue::Null))),
        _ => panic!("expected a value"),
    }
    assert!(matches!(PostgresInsertValue::<i32>::Null.into_owned(), PostgresInsertValue::Null));
}

#[test]
fn update_values() {
    assert!(PostgresUpdateValue::<i32>::Skip.is_skip());
    assert!(!PostgresUpdateValue::<i32>::Null.is_skip());
    let v = PostgresUpdateValue::<i32>::from_placeholder("n");
    assert!(!v.is_skip());
    match PostgresUpdateValue::<i32>::from_sql(SQL::raw("excluded.n")) {
        PostgresUpdateValue::Value(w) => assert_eq!(w.value.sql(), "excluded.n"),
        _ => panic!("expected a value"),
    }
    match PostgresUpdateValue::<i32>::from_value(PostgresValue::Boolean(true)) {
        PostgresUpdateValue::Value(w) => assert_eq!(w.value.param_count(), 1),
        _ => panic!("expected a value"),
    }
}
