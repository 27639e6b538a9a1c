//! The value a row of an `INSERT` or `UPDATE` gives one column.
use core::marker::PhantomData;
use vstd::prelude::*;

use crate::sql::{Chunk, Param, SQL};
use crate::values::PostgresValue;

verus! {

/// An SQL expression standing for a value of the Rust type `T`.
#[derive(Debug)]
pub struct ValueWrapper<T> {
    /// The expression.
    pub value: SQL,
    /// Ties the expression to `T`.
    pub _phantom: PhantomData<T>,
}

impl<T> ValueWrapper<T> {
    /// Wraps `value`.
    pub fn new(value: SQL) -> (res: ValueWrapper<T>)
        ensures
            res.value@ == value@,
    {
        ValueWrapper { value, _phantom: PhantomData }
    }
}

/// What an `INSERT` writes into one column.
#[derive(Debug)]
pub enum PostgresInsertValue<T> {
    /// Leave the column out, so that its default applies.
    Omit,
    /// Write `NULL`.
    Null,
    /// Write the value of an expression.
    Value(ValueWrapper<T>),
}

/// The single parameter bound to `v`.
pub open spec fn bound(v: PostgresValue) -> Seq<Chunk> {
    seq![Chunk::Param(Param { placeholder: None, value: Some(v) })]
}

/// The value that `PostgresInsertValue::into_owned` keeps of an expression:
/// the value bound to its first chunk, or `NULL`.
pub open spec fn owned_first_value(s: Seq<Chunk>) -> PostgresValue {
    if s.len() > 0 {
        match s[0] {
            Chunk::Param(p) => match p.value {
                Some(v) => v,
                None => PostgresValue::Null,
            },
            _ => PostgresValue::Null,
        }
    } else {
        PostgresValue::Null
    }
}

impl<T> PostgresInsertValue<T> {
    /// Writes `value`, bound as a parameter.
    pub fn from_value(value: PostgresValue) -> (res: Self)
        ensures
            res matches PostgresInsertValue::Value(w) && w.value@ == bound(value),
    {
        PostgresInsertValue::Value(ValueWrapper::new(SQL::param(value)))
    }

    /// Writes the value bound later to the placeholder `name`.
    pub fn from_placeholder(name: &str) -> (res: Self)
        ensures
            res matches PostgresInsertValue::Value(w) && w.value@.len() == 1 && (w.value@[0] matches Chunk::Param(
                p,
            ) && p.value is None && (p.placeholder matches Some(n) && n@ == name@)),
    {
        PostgresInsertValue::Value(ValueWrapper::new(SQL::placeholder(name)))
    }

    /// Writes the expression if there is one, and leaves the column out otherwise.
    pub fn from_option(value: Option<SQL>) -> (res: Self)
        ensures
            match value {
                Some(s) => res matches PostgresInsertValue::Value(w) && w.value@ == s@,
                None => res is Omit,
            },
    {
        match value {
            Some(s) => PostgresInsertValue::Value(ValueWrapper::new(s)),
            None => PostgresInsertValue::Omit,
        }
    }

    /// The value with owned contents: a written value keeps only the value
    /// bound to the first chunk of its expression, or `NULL` where that chunk
    /// binds none.
    pub fn into_owned(self) -> (res: Self)
        ensures
            match self {
                PostgresInsertValue::Omit => res is Omit,
                PostgresInsertValue::Null => res is Null,
                PostgresInsertValue::Value(w) => res matches PostgresInsertValue::Value(o) && o.value@
                    == bound(owned_first_value(w.value@)),
            },
    {
        match self {
            PostgresInsertValue::Omit => PostgresInsertValue::Omit,
            PostgresInsertValue::Null => PostgresInsertValue::Null,
            PostgresInsertValue::Value(w) => {
                let ghost s = w.value@;
                let mut chunks = w.value.into_chunks();
                let v = if chunks.len() > 0 {
                    let first = chunks.remove(0);
                    assert(first == s[0]);
                    match first {
                        Chunk::Param(p) => match p.value {
                            Some(v) => v,
                            None => PostgresValue::Null,
                        },
                        _ => PostgresValue::Null,
                    }
                } else {
                    PostgresValue::Null
                };
                PostgresInsertValue::Value(ValueWrapper::new(SQL::param(v)))
            },
        }
    }
}

/// What an `UPDATE` does to one column.
#[derive(Debug)]
pub enum PostgresUpdateValue<T> {
    /// Leave the column as it is.
    Skip,
    /// Set it to `NULL`.
    Null,
    /// Set it to the value of an expression.
    Value(ValueWrapper<T>),
}

impl<T> PostgresUpdateValue<T> {
    /// Whether the column is left as it is.
    pub fn is_skip(&self) -> (res: bool)
        ensures
            res == (*self is Skip),
    {
        match self {
            PostgresUpdateValue::Skip => true,
            _ => false,
        }
    }

    /// Sets the column to `value`, bound as a parameter.
    pub fn from_value(value: PostgresValue) -> (res: Self)
        ensures
            res matches PostgresUpdateValue::Value(w) && w.value@ == bound(value),
    {
        PostgresUpdateValue::Value(ValueWrapper::new(SQL::param(value)))
    }

    /// Sets the column to the value bound later to the placeholder `name`.
    pub fn from_placeholder(name: &str) -> (res: Self)
        ensures
            res matches PostgresUpdateValue::Value(w) && w.value@.len() == 1 && (w.value@[0] matches Chunk::Param(
                p,
            ) && p.value is None && (p.placeholder matches Some(n) && n@ == name@)),
    {
        PostgresUpdateValue::Value(ValueWrapper::new(SQL::placeholder(name)))
    }

    /// Sets the column to the value of the expression `sql`, such as
    /// `excluded.column` or an arithmetic expression.
    pub fn from_sql(sql: SQL) -> (res: Self)
        ensures
            res matches PostgresUpdateValue::Value(w) && w.value@ == sql@,
    {
        PostgresUpdateValue::Value(ValueWrapper::new(sql))
    }
}

} // verus!
