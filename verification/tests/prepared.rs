use drizzle_postgres::builder::prepared::{PreparedStatement, prepare_render};
use drizzle_postgres::sql::SQL;
use drizzle_postgres::values::PostgresValue;

#[test]
fn test_prepare_render_basic() {
    let sql = SQL::raw("SELECT * FROM users WHERE id = ")
        .append(SQL::placeholder("user_id"))
        .append(SQL::raw(" AND name = "))
        .append(SQL::placeholder("user_name"));

    let prepared = prepare_render(sql);

    assert_eq!(prepared.text_segments.len(), 3);
    assert_eq!(prepared.params.len(), 2);

    assert!(prepared.text_segments[0].contains("SELECT * FROM users WHERE id"));
    assert!(prepared.text_segments[1].contains("AND name"));
}

#[test]
fn test_prepare_with_no_parameters() {
    let sql = SQL::raw("SELECT COUNT(*) FROM users");
    let prepared = prepare_render(sql);

    assert_eq!(prepared.text_segments.len(), 1);
    assert_eq!(prepared.params.len(), 0);
    assert_eq!(prepared.text_segments[0], "SELECT COUNT(*) FROM users");
}

#[test]
fn test_prepared_statement_display() {
    let sql = SQL::raw("SELECT * FROM users")
        .append(SQL::raw(" WHERE id = "))
        .append(SQL::placeholder("id"));

    let prepared = prepare_render(sql);
    let display = prepared.to_text();

    assert!(display.contains("SELECT * FROM users"));
    assert!(display.contains("WHERE id"));
}

#[test]
fn test_owned_conversion_roundtrip() {
    let sql = SQL::raw("SELECT name FROM users WHERE id = ").append(SQL::placeholder("id"));

    let prepared = prepare_render(sql);

    let owned = prepared.into_owned();

    let borrowed: PreparedStatement = owned.into_prepared();

    assert_eq!(borrowed.text_segments.len(), 2);
    assert_eq!(borrowed.params.len(), 1);
}

#[test]
fn segments_reassemble_into_the_statement() {
    let sql = SQL::raw("SELECT * FROM t WHERE a = ")
        .append(SQL::param(PostgresValue::Integer(1)))
        .append(SQL::raw(" AND b = "))
        .append(SQL::param(PostgresValue::Text("x".to_string())));
    let prepared = prepare_render(sql);
    assert_eq!(prepared.sql, "SELECT * FROM t WHERE a = $1 AND b = $2");
    let mut rebuilt = prepared.text_segments[0].clone();
    for (i, seg) in prepared.text_segments.iter().enumerate().skip(1) {
        rebuilt.push_str(&format!("${}", i));
        rebuilt.push_str(seg);
    }
    assert_eq!(rebuilt, prepared.sql);
    assert!(matches!(prepared.params[0].value, Some(PostgresValue::Integer(1))));
    assert!(prepared.params[1].placeholder.is_none());
}

#[test]
fn placeholder_names_are_kept() {
    let prepared = prepare_render(SQL::placeholder("who").append(SQL::placeholder("when")));
    assert_eq!(prepared.text_segments, vec!["".to_string(), " ".to_string(), "".to_string()]);
    assert_eq!(prepared.params[0].placeholder.as_deref(), Some("who"));
    assert_eq!(prepared.params[1].placeholder.as_deref(), Some("when"));
    assert!(prepared.params[0].value.is_none());
}
