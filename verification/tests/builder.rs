use drizzle_postgres::builder::{
    BuilderInit,
    CTEView, DeleteBuilder, DeleteInitial, InsertBuilder, InsertInitial, QueryBuilder,
    SelectBuilder, SelectInitial, UpdateBuilder, UpdateInitial,
};
use drizzle_postgres::helpers::{Assignment, InsertRow};
use drizzle_postgres::relation::Relation;
use drizzle_postgres::sql::{SQL, Token};
use drizzle_postgres::values::PostgresValue;

fn users() -> Relation {
    Relation::new("users", None)
}

fn cols(names: &[&str]) -> Vec<String> {
    names.iter().map(|s| s.to_string()).collect()
}

#[test]
fn test_query_builder_new() {
    let qb = QueryBuilder::new::<()>();
    let sql = qb.to_sql();
    assert_eq!(sql.sql(), "");
    assert_eq!(sql.param_count(), 0);
}

#[test]
fn test_select_builder_creation() {
    let builder = SelectBuilder::<(), SelectInitial>::from_sql(SQL::raw("SELECT *"));
    assert_eq!(builder.to_sql().sql(), "SELECT *");
}

#[test]
fn test_insert_builder_creation() {
    let builder = InsertBuilder::<(), InsertInitial>::from_sql(SQL::raw("INSERT INTO test"));
    assert_eq!(builder.to_sql().sql(), "INSERT INTO test");
}

#[test]
fn test_update_builder_creation() {
    let builder = UpdateBuilder::<(), UpdateInitial>::from_sql(SQL::raw("UPDATE test"));
    assert_eq!(builder.to_sql().sql(), "UPDATE test");
}

#[test]
fn test_delete_builder_creation() {
    let builder = DeleteBuilder::<(), DeleteInitial>::from_sql(SQL::raw("DELETE FROM test"));
    assert_eq!(builder.to_sql().sql(), "DELETE FROM test");
}

#[test]
fn select_with_where_order_limit_offset() {
    let qb = QueryBuilder::new::<()>();
    let sql = qb
        .select(SQL::ident("id").push_token(Token::COMMA).append(SQL::ident("name")))
        .from(SQL::ident("users"))
        .where_(SQL::ident("id").push_token(Token::EQ).append(SQL::param(PostgresValue::Integer(7))))
        .order_by(SQL::ident("name"))
        .limit(10)
        .offset(20)
        .sql();
    assert_eq!(
        sql,
        r#"SELECT "id", "name" FROM "users" WHERE "id" = $1 ORDER BY "name" LIMIT 10 OFFSET 20"#
    );
}

#[test]
fn select_distinct_on_and_group_by() {
    let qb = QueryBuilder::new::<()>();
    let sql = qb
        .select_distinct_on(SQL::ident("a"), SQL::ident("a").push_token(Token::COMMA).append(SQL::ident("b")))
        .from(SQL::ident("t"))
        .group_by(vec![SQL::ident("a"), SQL::ident("b")])
        .having(SQL::raw("count(*) > 1"))
        .sql();
    assert_eq!(
        sql,
        r#"SELECT DISTINCT ON ("a") "a", "b" FROM "t" GROUP BY "a", "b" HAVING count(*) > 1"#
    );
}

#[test]
fn joins_render_their_keywords() {
    let posts = Relation::new("posts", Some("blog"));
    let qb = QueryBuilder::new::<()>();
    let sql = qb
        .select(SQL::token(Token::STAR))
        .from(SQL::ident("users"))
        .left_outer_join(&posts, Some(SQL::raw("posts.user_id = users.id")))
        .natural_full_join(&users(), None)
        .inner_join_using(&users(), SQL::ident("id"))
        .sql();
    assert_eq!(
        sql,
        r#"SELECT * FROM "users" LEFT OUTER JOIN "blog"."posts" ON posts.user_id = users.id NATURAL FULL JOIN "users" INNER JOIN "users" USING ("id")"#
    );
}

#[test]
fn set_operations_and_locking() {
    let qb = QueryBuilder::new::<()>();
    let other = QueryBuilder::new::<()>().select(SQL::raw("2")).to_sql();
    let sql = qb
        .select(SQL::raw("1"))
        .from(SQL::ident("t"))
        .union_all(other)
        .order_by(SQL::raw("1"))
        .sql();
    assert_eq!(sql, r#"SELECT 1 FROM "t" UNION ALL SELECT 2 ORDER BY 1"#);

    let locked = QueryBuilder::new::<()>()
        .select(SQL::token(Token::STAR))
        .from(SQL::ident("jobs"))
        .for_update_of(&Relation::new("jobs", Some("queue")))
        .skip_locked()
        .sql();
    assert_eq!(locked, r#"SELECT * FROM "jobs" FOR UPDATE OF "jobs" SKIP LOCKED"#);
}

#[test]
fn insert_values_and_conflicts() {
    let qb = QueryBuilder::new::<()>();
    let rows = vec![
        InsertRow {
            columns: cols(&["name", "age"]),
            values: SQL::param(PostgresValue::Text("ann".to_string()))
                .push_token(Token::COMMA)
                .append(SQL::param(PostgresValue::Integer(30))),
        },
        InsertRow {
            columns: cols(&["name", "age"]),
            values: SQL::param(PostgresValue::Text("bob".to_string()))
                .push_token(Token::COMMA)
                .append(SQL::param(PostgresValue::Integer(41))),
        },
    ];
    let sql = qb
        .insert(&users())
        .values(rows)
        .on_conflict(cols(&["name"]))
        .do_update(vec![Assignment { column: "age".to_string(), value: SQL::raw("excluded.age") }])
        .where_(SQL::raw("true"))
        .returning(SQL::ident("id"))
        .sql();
    assert_eq!(
        sql,
        r#"INSERT INTO "users" ("name", "age") VALUES ($1, $2), ($3, $4) ON CONFLICT ("name") DO UPDATE SET "age" = excluded.age WHERE true RETURNING "id""#
    );
}

#[test]
fn insert_default_values_and_do_nothing() {
    let qb = QueryBuilder::new::<()>();
    let sql = qb
        .insert(&users())
        .value(InsertRow { columns: Vec::new(), values: SQL::empty() })
        .on_conflict_do_nothing()
        .sql();
    assert_eq!(sql, r#"INSERT INTO "users" DEFAULT VALUES ON CONFLICT DO NOTHING"#);

    let sql = QueryBuilder::new::<()>()
        .insert(&users())
        .values(Vec::new())
        .on_conflict_on_constraint("users_pkey")
        .do_nothing()
        .sql();
    assert_eq!(sql, r#"INSERT INTO "users" VALUES ON CONFLICT ON CONSTRAINT "users_pkey" DO NOTHING"#);
}

#[test]
fn update_set_from_where_returning() {
    let qb = QueryBuilder::new::<()>();
    let sql = qb
        .update(&Relation::new("accounts", Some("bank")))
        .set(vec![
            Assignment { column: "balance".to_string(), value: SQL::param(PostgresValue::Bigint(5)) },
            Assignment { column: "note".to_string(), value: SQL::param(PostgresValue::Null) },
        ])
        .from(SQL::ident("audit"))
        .where_(SQL::raw("audit.ok"))
        .returning(SQL::token(Token::STAR))
        .sql();
    assert_eq!(
        sql,
        r#"UPDATE "bank"."accounts" SET "balance" = $1, "note" = $2 FROM "audit" WHERE audit.ok RETURNING *"#
    );
}

#[test]
fn delete_where_returning() {
    let qb = QueryBuilder::new::<()>();
    let sql = qb
        .delete(&users())
        .where_(SQL::ident("id").push_token(Token::EQ).append(SQL::param(PostgresValue::Integer(3))))
        .returning(SQL::ident("id"))
        .sql();
    assert_eq!(sql, r#"DELETE FROM "users" WHERE "id" = $1 RETURNING "id""#);
}

#[test]
fn common_table_expressions() {
    let qb = QueryBuilder::new::<()>();
    let recent = QueryBuilder::new::<()>()
        .select(SQL::token(Token::STAR))
        .from(SQL::ident("orders"))
        .limit(5)
        .into_cte("recent");
    let older = CTEView::new("older", SQL::raw("SELECT 1"));
    let sql = qb
        .with(recent)
        .with(older)
        .select(SQL::token(Token::STAR))
        .from(SQL::ident("recent"))
        .sql();
    assert_eq!(
        sql,
        r#"WITH "recent" AS (SELECT * FROM "orders" LIMIT 5), "older" AS (SELECT 1) SELECT * FROM "recent""#
    );
}

#[test]
fn quotes_inside_identifiers_are_doubled() {
    assert_eq!(SQL::ident(r#"we"ird"#).sql(), r#""we""ird""#);
}

#[test]
fn test_builder_init_type() {
    let _state = BuilderInit;
}
