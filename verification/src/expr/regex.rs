//! POSIX regular-expression matching.
use vstd::prelude::*;

use super::operators::{op_text, operator_shape, text_param};
use crate::sql::SQL;

verus! {

/// The text matches the POSIX regular expression `pattern`: `expr ~ pattern`.
pub fn regex_match(expr: SQL, pattern: &str) -> (res: SQL)
    ensures
        operator_shape(res@, expr@, "~"@),
        text_param(res@.last(), pattern@),
{
    op_text(expr, "~", pattern)
}

/// The text matches `pattern`, ignoring case: `expr ~* pattern`.
pub fn regex_match_ci(expr: SQL, pattern: &str) -> (res: SQL)
    ensures
        operator_shape(res@, expr@, "~*"@),
        text_param(res@.last(), pattern@),
{
    op_text(expr, "~*", pattern)
}

/// The text does not match `pattern`: `expr !~ pattern`.
pub fn regex_not_match(expr: SQL, pattern: &str) -> (res: SQL)
    ensures
        operator_shape(res@, expr@, "!~"@),
        text_param(res@.last(), pattern@),
{
    op_text(expr, "!~", pattern)
}

/// The text does not match `pattern`, ignoring case: `expr !~* pattern`.
pub fn regex_not_match_ci(expr: SQL, pattern: &str) -> (res: SQL)
    ensures
        operator_shape(res@, expr@, "!~*"@),
        text_param(res@.last(), pattern@),
{
    op_text(expr, "!~*", pattern)
}

/// The regular-expression operators as methods of an expression.
pub trait RegexExprExt: Sized {
    /// `self ~ pattern`
    fn regex_match(self, pattern: &str) -> SQL;

    /// `self ~* pattern`
    fn regex_match_ci(self, pattern: &str) -> SQL;

    /// `self !~ pattern`
    fn regex_not_match(self, pattern: &str) -> SQL;

    /// `self !~* pattern`
    fn regex_not_match_ci(self, pattern: &str) -> SQL;

}

impl RegexExprExt for SQL {
    fn regex_match(self, pattern: &str) -> (res: SQL)
        ensures
            operator_shape(res@, self@, "~"@),
            text_param(res@.last(), pattern@),
    {
        regex_match(self, pattern)
    }

    fn regex_match_ci(self, pattern: &str) -> (res: SQL)
        ensures
            operator_shape(res@, self@, "~*"@),
            text_param(res@.last(), pattern@),
    {
        regex_match_ci(self, pattern)
    }

    fn regex_not_match(self, pattern: &str) -> (res: SQL)
        ensures
            operator_shape(res@, self@, "!~"@),
            text_param(res@.last(), pattern@),
    {
        regex_not_match(self, pattern)
    }

    fn regex_not_match_ci(self, pattern: &str) -> (res: SQL)
        ensures
            operator_shape(res@, self@, "!~*"@),
            text_param(res@.last(), pattern@),
    {
        regex_not_match_ci(self, pattern)
    }

}

} // verus!
