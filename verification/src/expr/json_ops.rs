//! JSON and JSONB operators.
use vstd::prelude::*;

use super::operators::{
    int_param, op_text, op_value, operator_shape, text_array, text_array_param, text_param,
    texts_of_strs,
};
use crate::sql::SQL;
use crate::values::PostgresValue;

verus! {

/// Gets the JSON value under `key`: `expr -> key`.
pub fn json_get(expr: SQL, key: &str) -> (res: SQL)
    ensures
        operator_shape(res@, expr@, "->"@),
        text_param(res@.last(), key@),
{
    op_text(expr, "->", key)
}

/// Gets the JSON array element at `index`: `expr -> index`.
pub fn json_get_idx(expr: SQL, index: i32) -> (res: SQL)
    ensures
        operator_shape(res@, expr@, "->"@),
        int_param(res@.last(), index),
{
    op_value(expr, "->", PostgresValue::Integer(index))
}

/// Gets the value under `key` as text: `expr ->> key`.
pub fn json_get_text(expr: SQL, key: &str) -> (res: SQL)
    ensures
        operator_shape(res@, expr@, "->>"@),
        text_param(res@.last(), key@),
{
    op_text(expr, "->>", key)
}

/// Gets the array element at `index` as text: `expr ->> index`.
pub fn json_get_text_idx(expr: SQL, index: i32) -> (res: SQL)
    ensures
        operator_shape(res@, expr@, "->>"@),
        int_param(res@.last(), index),
{
    op_value(expr, "->>", PostgresValue::Integer(index))
}

/// Gets the JSON value at the path `path`: `expr #> path`.
pub fn json_get_path(expr: SQL, path: &str) -> (res: SQL)
    ensures
        operator_shape(res@, expr@, "#>"@),
        text_param(res@.last(), path@),
{
    op_text(expr, "#>", path)
}

/// Gets the value at the path `path` as text: `expr #>> path`.
pub fn json_get_path_text(expr: SQL, path: &str) -> (res: SQL)
    ensures
        operator_shape(res@, expr@, "#>>"@),
        text_param(res@.last(), path@),
{
    op_text(expr, "#>>", path)
}

/// The JSONB document has the top-level key `key`: `expr ? key`.
pub fn jsonb_exists_key(expr: SQL, key: &str) -> (res: SQL)
    ensures
        operator_shape(res@, expr@, "?"@),
        text_param(res@.last(), key@),
{
    op_text(expr, "?", key)
}

/// The JSONB document `left` contains `right`: `left @> right`.
pub fn jsonb_contains(left: SQL, right: SQL) -> (res: SQL)
    ensures
        super::array_ops::binary_shape(res@, left@, "@>"@, right@),
{
    let ghost l = left@;
    let ghost r = right@;
    let res = left.append(SQL::raw("@>")).append(right);
    assert(res@.take(l.len() as int) =~= l);
    assert(res@.skip(l.len() as int + 1) =~= r);
    res
}

/// The JSONB document `left` is contained in `right`: `left <@ right`.
pub fn jsonb_contained(left: SQL, right: SQL) -> (res: SQL)
    ensures
        super::array_ops::binary_shape(res@, left@, "<@"@, right@),
{
    let ghost l = left@;
    let ghost r = right@;
    let res = left.append(SQL::raw("<@")).append(right);
    assert(res@.take(l.len() as int) =~= l);
    assert(res@.skip(l.len() as int + 1) =~= r);
    res
}

/// The JSONB document has at least one of the top-level keys `keys`: `expr ?| keys`.
pub fn jsonb_exists_any(expr: SQL, keys: &[&str]) -> (res: SQL)
    ensures
        operator_shape(res@, expr@, "?|"@),
        text_array_param(res@.last(), texts_of_strs(keys@)),
{
    op_value(expr, "?|", text_array(keys))
}

/// The JSONB document has all the top-level keys `keys`: `expr ?& keys`.
pub fn jsonb_exists_all(expr: SQL, keys: &[&str]) -> (res: SQL)
    ensures
        operator_shape(res@, expr@, "?&"@),
        text_array_param(res@.last(), texts_of_strs(keys@)),
{
    op_value(expr, "?&", text_array(keys))
}

/// The JSON operators as methods of an expression.
pub trait JsonExprExt: Sized {
    /// `self -> key`
    fn json_get(self, key: &str) -> SQL;

    /// `self -> index`
    fn json_get_idx(self, index: i32) -> SQL;

    /// `self ->> key`
    fn json_get_text(self, key: &str) -> SQL;

    /// `self ->> index`
    fn json_get_text_idx(self, index: i32) -> SQL;

    /// `self #> path`
    fn json_get_path(self, path: &str) -> SQL;

    /// `self #>> path`
    fn json_get_path_text(self, path: &str) -> SQL;

    /// `self @> other`
    fn jsonb_contains(self, other: SQL) -> SQL;

    /// `self <@ other`
    fn jsonb_contained(self, other: SQL) -> SQL;

    /// `self ? key`
    fn jsonb_exists_key(self, key: &str) -> SQL;
}

impl JsonExprExt for SQL {
    fn json_get(self, key: &str) -> (res: SQL)
        ensures
            operator_shape(res@, self@, "->"@),
            text_param(res@.last(), key@),
    {
        json_get(self, key)
    }

    fn json_get_idx(self, index: i32) -> (res: SQL)
        ensures
            operator_shape(res@, self@, "->"@),
            int_param(res@.last(), index),
    {
        json_get_idx(self, index)
    }

    fn json_get_text(self, key: &str) -> (res: SQL)
        ensures
            operator_shape(res@, self@, "->>"@),
            text_param(res@.last(), key@),
    {
        json_get_text(self, key)
    }

    fn json_get_text_idx(self, index: i32) -> (res: SQL)
        ensures
            operator_shape(res@, self@, "->>"@),
            int_param(res@.last(), index),
    {
        json_get_text_idx(self, index)
    }

    fn json_get_path(self, path: &str) -> (res: SQL)
        ensures
            operator_shape(res@, self@, "#>"@),
            text_param(res@.last(), path@),
    {
        json_get_path(self, path)
    }

    fn json_get_path_text(self, path: &str) -> (res: SQL)
        ensures
            operator_shape(res@, self@, "#>>"@),
            text_param(res@.last(), path@),
    {
        json_get_path_text(self, path)
    }

    fn jsonb_exists_key(self, key: &str) -> (res: SQL)
        ensures
            operator_shape(res@, self@, "?"@),
            text_param(res@.last(), key@),
    {
        jsonb_exists_key(self, key)
    }

    fn jsonb_contains(self, other: SQL) -> (res: SQL)
        ensures
            super::array_ops::binary_shape(res@, self@, "@>"@, other@),
    {
        jsonb_contains(self, other)
    }

    fn jsonb_contained(self, other: SQL) -> (res: SQL)
        ensures
            super::array_ops::binary_shape(res@, self@, "<@"@, other@),
    {
        jsonb_contained(self, other)
    }

}

} // verus!
