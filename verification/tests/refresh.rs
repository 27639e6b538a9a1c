use drizzle_postgres::builder::refresh::{RefreshMaterializedView, refresh_materialized_view};
use drizzle_postgres::relation::Relation;

fn test_view() -> Relation {
    Relation::new("user_stats", Some("public"))
}

fn explicit_schema_view() -> Relation {
    Relation::new("user_stats", Some("analytics"))
}

#[test]
fn test_basic_refresh() {
    let view = test_view();
    let refresh = RefreshMaterializedView::new(&view);
    let sql = refresh.to_sql();

    assert_eq!(sql.sql(), r#"REFRESH MATERIALIZED VIEW "user_stats""#);
}

#[test]
fn test_concurrent_refresh() {
    let view = test_view();
    let refresh = RefreshMaterializedView::new(&view).concurrently();
    let sql = refresh.to_sql();

    assert_eq!(sql.sql(), r#"REFRESH MATERIALIZED VIEW CONCURRENTLY "user_stats""#);
}

#[test]
fn test_refresh_with_no_data() {
    let view = test_view();
    let refresh = RefreshMaterializedView::new(&view).with_no_data();
    let sql = refresh.to_sql();

    assert_eq!(sql.sql(), r#"REFRESH MATERIALIZED VIEW "user_stats" WITH NO DATA"#);
}

#[test]
fn test_refresh_with_data() {
    let view = test_view();
    let refresh = RefreshMaterializedView::new(&view).with_data();
    let sql = refresh.to_sql();

    assert_eq!(sql.sql(), r#"REFRESH MATERIALIZED VIEW "user_stats" WITH DATA"#);
}

#[test]
fn test_non_public_schema_is_qualified() {
    let view = explicit_schema_view();
    assert_eq!(
        RefreshMaterializedView::new(&view).to_sql().sql(),
        r#"REFRESH MATERIALIZED VIEW "analytics"."user_stats""#
    );
    assert_eq!(
        RefreshMaterializedView::new(&view).concurrently().to_sql().sql(),
        r#"REFRESH MATERIALIZED VIEW CONCURRENTLY "analytics"."user_stats""#
    );
}

#[test]
fn test_helper_function() {
    let view = test_view();
    let refresh = refresh_materialized_view(&view);
    let sql = refresh.to_sql();

    assert_eq!(sql.sql(), r#"REFRESH MATERIALIZED VIEW "user_stats""#);
}

#[test]
fn view_without_schema_is_unqualified() {
    let view = Relation::new("totals", None);
    assert_eq!(
        RefreshMaterializedView::new(&view).with_data().concurrently().to_sql().sql(),
        r#"REFRESH MATERIALIZED VIEW CONCURRENTLY "totals" WITH DATA"#
    );
}

#[test]
fn refresh_has_no_parameters() {
    let view = explicit_schema_view();
    assert_eq!(RefreshMaterializedView::new(&view).to_sql().param_count(), 0);
}
