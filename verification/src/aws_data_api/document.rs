//! `JSON` and `JSONB` columns, which the Data API returns as text, checked
//! with `serde_json`.
use vstd::prelude::*;

use super::datetime::read_column;
use super::field::{DecodeError, Row, expect_string, field_at, field_is_null};
use super::network::read_nullable_column;
use crate::text::push_str;

verus! {

/// Whether `serde_json::from_str::<serde_json::Value>` reads `text` as a
/// JSON document.
pub uninterp spec fn serde_json_accepts(text: Seq<char>) -> bool;

/// `serde_json::from_str::<serde_json::Value>(text).is_ok()`.
///
/// Claims: the answer depends on `text` alone (it is named
/// `serde_json_accepts`); which texts the crate accepts is not stated.
#[verifier::external_body]
fn json_accepts(text: &str) -> (res: bool)
    ensures
        res == serde_json_accepts(text@),
{
    serde_json::from_str::<serde_json::Value>(text).is_ok()
}

/// How a JSON column's text reads: the text itself when `serde_json`
/// accepts it as a document, else `DecodeError::Json`.
pub open spec fn json_reading(s: Seq<char>) -> Result<Seq<char>, DecodeError> {
    if serde_json_accepts(s) {
        Ok(s)
    } else {
        Err(DecodeError::Json)
    }
}

/// The view of a text result.
pub open spec fn text_result(r: Result<String, DecodeError>) -> Result<Seq<char>, DecodeError> {
    match r {
        Ok(s) => Ok(s@),
        Err(e) => Err(e),
    }
}

/// The view of a nullable text result.
pub open spec fn opt_text_result(r: Result<Option<String>, DecodeError>) -> Result<
    Option<Seq<char>>,
    DecodeError,
> {
    match r {
        Ok(Some(s)) => Ok(Some(s@)),
        Ok(None) => Ok(None),
        Err(e) => Err(e),
    }
}

fn owned_text(s: &str) -> (res: String)
    ensures
        res@ == s@,
{
    let mut out = String::new();
    push_str(&mut out, s);
    out
}

/// Reads a `JSON` or `JSONB` column: the document's text, once
/// `serde_json` has accepted it.
pub fn json_text_at(row: &Row, offset: usize) -> (res: Result<String, DecodeError>)
    ensures
        text_result(res) == read_column(row.spec_fields(), offset, |s: Seq<char>| json_reading(s)),
{
    let s = expect_string(field_at(row, offset)?)?;
    if json_accepts(s) {
        Ok(owned_text(s))
    } else {
        Err(DecodeError::Json)
    }
}

/// Reads a nullable `JSON` or `JSONB` column.
pub fn opt_json_text_at(row: &Row, offset: usize) -> (res: Result<Option<String>, DecodeError>)
    ensures
        opt_text_result(res) == read_nullable_column(
            row.spec_fields(),
            offset,
            |s: Seq<char>| json_reading(s),
        ),
{
    let field = field_at(row, offset)?;
    if field_is_null(field) {
        return Ok(None);
    }
    let s = expect_string(field)?;
    if json_accepts(s) {
        Ok(Some(owned_text(s)))
    } else {
        Err(DecodeError::Json)
    }
}

} // verus!
