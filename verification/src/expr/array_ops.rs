//! Array operators: containment (`@>`, `<@`) and overlap (`&&`).
use vstd::prelude::*;

use crate::sql::{Chunk, Param, SQL, raw_chunk};
use crate::values::PostgresValue;

verus! {

/// An array literal, bound as one `ARRAY` parameter.
#[derive(Debug)]
pub struct PgArray<T>(pub Vec<T>);

impl PgArray<PostgresValue> {
    /// The parameter holding this array.
    pub fn to_sql(self) -> (res: SQL)
        ensures
            res@ == seq![Chunk::Param(Param { placeholder: None, value: Some(PostgresValue::Array(self.0)) })],
    {
        SQL::param(PostgresValue::Array(self.0))
    }
}

/// `s` is `left op right`, with `op` the raw operator text.
pub open spec fn binary_shape(s: Seq<Chunk>, left: Seq<Chunk>, op: Seq<char>, right: Seq<Chunk>) -> bool {
    &&& s.len() == left.len() + 1 + right.len()
    &&& s.take(left.len() as int) == left
    &&& raw_chunk(s[left.len() as int], op)
    &&& s.skip(left.len() as int + 1) == right
}

/// `left op right`
fn binary(left: SQL, op: &str, right: SQL) -> (res: SQL)
    ensures
        binary_shape(res@, left@, op@, right@),
{
    let ghost l = left@;
    let ghost r = right@;
    let res = left.append(SQL::raw(op)).append(right);
    assert(res@.take(l.len() as int) =~= l);
    assert(res@.skip(l.len() as int + 1) =~= r);
    res
}

/// `left @> right`: the array `left` contains every element of `right`.
pub fn array_contains(left: SQL, right: SQL) -> (res: SQL)
    ensures
        binary_shape(res@, left@, "@>"@, right@),
{
    binary(left, "@>", right)
}

/// `left <@ right`: every element of `left` is in the array `right`.
pub fn array_contained(left: SQL, right: SQL) -> (res: SQL)
    ensures
        binary_shape(res@, left@, "<@"@, right@),
{
    binary(left, "<@", right)
}

/// `left && right`: the two arrays share an element.
pub fn array_overlaps(left: SQL, right: SQL) -> (res: SQL)
    ensures
        binary_shape(res@, left@, "&&"@, right@),
{
    binary(left, "&&", right)
}

/// The array operators as methods of an expression.
pub trait ArrayExprExt: Sized {
    /// `self @> other`
    fn array_contains(self, other: SQL) -> SQL;

    /// `self <@ other`
    fn array_contained(self, other: SQL) -> SQL;

    /// `self && other`
    fn array_overlaps(self, other: SQL) -> SQL;
}

impl ArrayExprExt for SQL {
    fn array_contains(self, other: SQL) -> (res: SQL)
        ensures
            binary_shape(res@, self@, "@>"@, other@),
    {
        array_contains(self, other)
    }

    fn array_contained(self, other: SQL) -> (res: SQL)
        ensures
            binary_shape(res@, self@, "<@"@, other@),
    {
        array_contained(self, other)
    }

    fn array_overlaps(self, other: SQL) -> (res: SQL)
        ensures
            binary_shape(res@, self@, "&&"@, other@),
    {
        array_overlaps(self, other)
    }
}

} // verus!
