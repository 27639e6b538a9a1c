//! JSON documents and the two PostgreSQL types that store them.
use vstd::prelude::*;

use crate::sql::{Chunk, Param, SQL};

use crate::values::PostgresValue;

verus! {

/// Closes [`PostgresJsonType`] to the two types below.
pub trait Sealed {

}

/// A PostgreSQL type that stores JSON documents: `JSON` or `JSONB`.
pub trait PostgresJsonType: Sealed {
    /// Whether the type is `JSONB`.
    spec fn spec_jsonb() -> bool;

    /// Whether the type is `JSONB`.
    fn jsonb() -> (res: bool)
        ensures
            res == Self::spec_jsonb(),
    ;
}

/// The PostgreSQL `JSON` type: the document's text, kept as written.
#[derive(Debug, Clone, Copy, Default)]
pub struct Json;

/// The PostgreSQL `JSONB` type: the document in a binary, indexable form.
#[derive(Debug, Clone, Copy, Default)]
pub struct Jsonb;

impl Sealed for Json {

}

impl Sealed for Jsonb {

}

impl PostgresJsonType for Json {
    open spec fn spec_jsonb() -> bool {
        false
    }

    fn jsonb() -> (res: bool) {
        false
    }
}

impl PostgresJsonType for Jsonb {
    open spec fn spec_jsonb() -> bool {
        true
    }

    fn jsonb() -> (res: bool) {
        true
    }
}

/// The value that stores the serialized document `text` in a column of
/// type `Target`.
pub fn json_document<Target: PostgresJsonType>(text: String) -> (res: PostgresValue)
    ensures
        res == if Target::spec_jsonb() {
            PostgresValue::Jsonb(text)
        } else {
            PostgresValue::Json(text)
        },
{
    if Target::jsonb() {
        PostgresValue::Jsonb(text)
    } else {
        PostgresValue::Json(text)
    }
}

/// A JSON document used directly as an expression: a parameter bound as
/// `JSONB`, the JSON type that has an equality operator. Columns of either
/// JSON type accept it.
pub fn json_expression(text: String) -> (res: SQL)
    ensures
        res@ == seq![Chunk::Param(Param { placeholder: None, value: Some(PostgresValue::Jsonb(text)) })],
{
    SQL::param(PostgresValue::Jsonb(text))
}

} // verus!
