//! Case-insensitive pattern matching: `ILIKE`.
use vstd::prelude::*;

use crate::sql::{Chunk, Param, SQL, Token, raw_chunk};
use crate::values::PostgresValue;

verus! {

/// `s` is `expr [NOT] ILIKE $n`, with `pattern` bound to the parameter.
pub open spec fn ilike_shape(s: Seq<Chunk>, expr: Seq<Chunk>, negated: bool, pattern: PostgresValue) -> bool {
    let keep = if negated { expr.push(Chunk::Token(Token::NOT)) } else { expr };
    &&& s.len() == keep.len() + 2
    &&& s.take(keep.len() as int) == keep
    &&& raw_chunk(s[keep.len() as int], "ILIKE"@)
    &&& s.last() == Chunk::Param(Param { placeholder: None, value: Some(pattern) })
}

/// `expr ILIKE pattern`: a case-insensitive `LIKE`, with the pattern bound
/// as a parameter.
pub fn ilike(expr: SQL, pattern: PostgresValue) -> (res: SQL)
    ensures
        ilike_shape(res@, expr@, false, pattern),
{
    let ghost e = expr@;
    let res = expr.append(SQL::raw("ILIKE")).append(SQL::param(pattern));
    assert(res@.take(e.len() as int) =~= e);
    res
}

/// `expr NOT ILIKE pattern`.
pub fn not_ilike(expr: SQL, pattern: PostgresValue) -> (res: SQL)
    ensures
        ilike_shape(res@, expr@, true, pattern),
{
    let ghost e = expr@;
    let res = expr.push_token(Token::NOT).append(SQL::raw("ILIKE")).append(SQL::param(pattern));
    assert(res@.take(e.len() as int + 1) =~= e.push(Chunk::Token(Token::NOT)));
    res
}

} // verus!
