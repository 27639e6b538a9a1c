use drizzle_postgres::expr::{
    JsonExprExt, RegexExprExt, json_get, json_get_idx, json_get_path_text, json_get_text,
    jsonb_contains, jsonb_exists_all, jsonb_exists_any, jsonb_exists_key, regex_match,
    regex_not_match_ci,
};
use drizzle_postgres::expr::{ArrayExprExt, PgArray, array_contained, array_contains, array_overlaps, ilike, not_ilike};
use drizzle_postgres::helpers::{
    Join, for_key_share, for_no_key_update, for_share, for_share_of, join_using, left_join_using,
    limit, nowait, on_conflict, select_distinct, union, values,
};
use drizzle_postgres::json::{Json, Jsonb, json_document, json_expression};
use drizzle_postgres::relation::{Relation, qualified_name};
use drizzle_postgres::sql::{SQL, Token};
use drizzle_postgres::values::PostgresValue;

#[test]
fn spacing_rules() {
    let s = SQL::token(Token::SELECT)
        .push_token(Token::LPAREN)
        .append(SQL::ident("a"))
        .push_token(Token::COMMA)
        .append(SQL::ident("b"))
        .push_token(Token::RPAREN)
        .append(SQL::raw(" AS x"))
        .append(SQL::raw("y "))
        .push_token(Token::DOT);
    assert_eq!(s.sql(), r#"SELECT ("a", "b") AS x y ."#);
}

#[test]
fn parameters_are_numbered_in_order() {
    let s = SQL::param(PostgresValue::Integer(1))
        .append(SQL::raw("+"))
        .append(SQL::param(PostgresValue::Integer(2)))
        .append(SQL::raw("+"))
        .append(SQL::placeholder("p"));
    assert_eq!(s.sql(), "$1 + $2 + $3");
    assert_eq!(s.param_count(), 3);
    let params = s.into_params();
    assert!(matches!(params[1].value, Some(PostgresValue::Integer(2))));
    assert_eq!(params[2].placeholder.as_deref(), Some("p"));
}

#[test]
fn appending_keeps_parameters_and_their_order() {
    let a = SQL::param(PostgresValue::Text("a".to_string()));
    let b = SQL::token(Token::AS).append(SQL::param(PostgresValue::Text("b".to_string())));
    let params = a.append(b).into_params();
    assert_eq!(params.len(), 2);
    assert!(matches!(params[0].value, Some(PostgresValue::Text(ref s)) if s == "a"));
    assert!(matches!(params[1].value, Some(PostgresValue::Text(ref s)) if s == "b"));
}

#[test]
fn join_of_fragments() {
    let j = SQL::join(vec![SQL::ident("a"), SQL::ident("b"), SQL::ident("c")], Token::COMMA);
    assert_eq!(j.sql(), r#""a", "b", "c""#);
    assert_eq!(SQL::join(Vec::new(), Token::COMMA).sql(), "");
    assert_eq!(SQL::tokens(&[Token::FOR, Token::UPDATE]).sql(), "FOR UPDATE");
}

#[test]
fn qualified_names() {
    assert_eq!(qualified_name("t", Some("public")).sql(), r#""t""#);
    assert_eq!(qualified_name("t", Some("s")).sql(), r#""s"."t""#);
    assert_eq!(qualified_name("t", None).sql(), r#""t""#);
}

#[test]
fn clause_helpers() {
    assert_eq!(select_distinct(SQL::token(Token::STAR)).sql(), "SELECT DISTINCT *");
    assert_eq!(limit(0).sql(), "LIMIT 0");
    assert_eq!(for_share().sql(), "FOR SHARE");
    assert_eq!(for_no_key_update().sql(), "FOR NO KEY UPDATE");
    assert_eq!(for_key_share().append(nowait()).sql(), "FOR KEY SHARE NOWAIT");
    assert_eq!(for_share_of("t").sql(), r#"FOR SHARE OF "t""#);
    assert_eq!(union(SQL::raw("SELECT 1"), SQL::raw("SELECT 2")).sql(), "SELECT 1 UNION SELECT 2");
    assert_eq!(values(Vec::new()).sql(), "VALUES");
    assert_eq!(
        on_conflict(Some(SQL::ident("id")), SQL::raw("DO NOTHING")).sql(),
        r#"ON CONFLICT ("id") DO NOTHING"#
    );
    assert_eq!(on_conflict(None, SQL::raw("DO NOTHING")).sql(), "ON CONFLICT DO NOTHING");
    let t = Relation::new("t", Some("s"));
    assert_eq!(join_using(&t, SQL::ident("id")).sql(), r#"JOIN "s"."t" USING ("id")"#);
    assert_eq!(left_join_using(&t, SQL::ident("id")).sql(), r#"LEFT JOIN "s"."t" USING ("id")"#);
    assert_eq!(Join::new().natural().right().outer().to_sql().sql(), "NATURAL RIGHT OUTER JOIN");
    assert_eq!(Join::new().cross().to_sql().sql(), "CROSS JOIN");
}

#[test]
fn pattern_and_array_operators() {
    let e = ilike(SQL::ident("name"), PostgresValue::Text("a%".to_string()));
    assert_eq!(e.sql(), r#""name" ILIKE $1"#);
    let e = not_ilike(SQL::ident("name"), PostgresValue::Text("a%".to_string()));
    assert_eq!(e.sql(), r#""name" NOT ILIKE $1"#);
    let arr = PgArray(vec![PostgresValue::Integer(1), PostgresValue::Integer(2)]).to_sql();
    assert_eq!(array_contains(SQL::ident("tags"), arr).sql(), r#""tags" @> $1"#);
    assert_eq!(array_contained(SQL::ident("a"), SQL::ident("b")).sql(), r#""a" <@ "b""#);
    assert_eq!(array_overlaps(SQL::ident("a"), SQL::ident("b")).sql(), r#""a" && "b""#);
    assert_eq!(SQL::ident("a").array_overlaps(SQL::ident("b")).sql(), r#""a" && "b""#);
}

#[test]
fn column_type_selects_the_json_variant() {
    assert!(matches!(json_document::<Json>(r#"{"a":1}"#.to_string()), PostgresValue::Json(ref s) if s == r#"{"a":1}"#));
    assert!(matches!(json_document::<Jsonb>(r#"{"a":1}"#.to_string()), PostgresValue::Jsonb(ref s) if s == r#"{"a":1}"#));
}

#[test]
fn expressions_bind_jsonb() {
    let sql = json_expression("[1,2]".to_string());
    let params = sql.into_params();
    assert_eq!(params.len(), 1);
    assert!(matches!(params[0].value, Some(PostgresValue::Jsonb(ref s)) if s == "[1,2]"));
}

#[test]
fn json_and_regex_operators() {
    assert_eq!(json_get(SQL::ident("doc"), "a").sql(), r#""doc" -> $1"#);
    assert_eq!(json_get_idx(SQL::ident("doc"), 2).sql(), r#""doc" -> $1"#);
    assert_eq!(json_get_text(SQL::ident("doc"), "a").sql(), r#""doc" ->> $1"#);
    assert_eq!(json_get_path_text(SQL::ident("doc"), "{a,b}").sql(), r#""doc" #>> $1"#);
    assert_eq!(jsonb_contains(SQL::ident("d"), SQL::ident("e")).sql(), r#""d" @> "e""#);
    assert_eq!(jsonb_exists_key(SQL::ident("d"), "k").sql(), r#""d" ? $1"#);
    let any = jsonb_exists_any(SQL::ident("d"), &["a", "b"]);
    assert_eq!(any.sql(), r#""d" ?| $1"#);
    let params = any.into_params();
    match &params[0].value {
        Some(PostgresValue::Array(items)) => {
            assert_eq!(items.len(), 2);
            assert!(matches!(&items[1], PostgresValue::Text(s) if s == "b"));
        },
        _ => panic!("expected an array"),
    }
    assert_eq!(jsonb_exists_all(SQL::ident("d"), &[]).sql(), r#""d" ?& $1"#);
    assert_eq!(SQL::ident("d").json_get_text_idx(0).sql(), r#""d" ->> $1"#);
    assert_eq!(regex_match(SQL::ident("s"), "^a").sql(), r#""s" ~ $1"#);
    assert_eq!(regex_not_match_ci(SQL::ident("s"), "^a").sql(), r#""s" !~* $1"#);
    assert_eq!(SQL::ident("s").regex_match_ci("x").sql(), r#""s" ~* $1"#);
}
