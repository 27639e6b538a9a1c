//! Builder for PostgreSQL `DOUBLE PRECISION` columns.
use core::marker::PhantomData;
use vstd::prelude::*;

verus! {

/// Builder for PostgreSQL `DOUBLE PRECISION` columns, which hold 8-byte floating-point numbers.
#[derive(Debug)]
pub struct DoublePrecisionBuilder<T> {
    /// Ties the builder to the Rust type that the column holds.
    pub _marker: PhantomData<T>,
    /// Whether this column has a `NOT NULL` constraint.
    pub is_not_null: bool,
    /// Whether this column has any default value.
    pub has_default: bool,
}

impl<T> Clone for DoublePrecisionBuilder<T> {
    fn clone(&self) -> (res: Self)
        ensures
            res.is_not_null == self.is_not_null,
            res.has_default == self.has_default,
    {
        DoublePrecisionBuilder { _marker: PhantomData, is_not_null: self.is_not_null, has_default: self.has_default }
    }
}

impl<T> Copy for DoublePrecisionBuilder<T> {

}

impl<T> DoublePrecisionBuilder<T> {
    /// Creates a `DOUBLE PRECISION` column builder with its default settings.
    pub fn new() -> (res: Self)
        ensures
            !res.is_not_null,
            !res.has_default,
    {
        DoublePrecisionBuilder { _marker: PhantomData, is_not_null: false, has_default: false }
    }

    /// Adds a `NOT NULL` constraint to this column.
    pub fn not_null(self) -> (res: Self)
        ensures
            res.is_not_null,
            res.has_default == self.has_default,
    {
        DoublePrecisionBuilder { _marker: PhantomData, is_not_null: true, has_default: self.has_default }
    }

    /// Marks this column as having a Rust function that produces its default at runtime.
    pub fn has_default_fn(self) -> (res: Self)
        ensures
            res.is_not_null == self.is_not_null,
            res.has_default,
    {
        DoublePrecisionBuilder { _marker: PhantomData, is_not_null: self.is_not_null, has_default: true }
    }
}

/// Creates a `DOUBLE PRECISION` column builder.
pub fn double_precision<T>() -> (res: DoublePrecisionBuilder<T>)
    ensures
        !res.is_not_null,
        !res.has_default,
{
    DoublePrecisionBuilder::new()
}

/// Creates a `DOUBLE PRECISION` column builder under its alias `FLOAT8`.
pub fn float8<T>() -> (res: DoublePrecisionBuilder<T>)
    ensures
        !res.is_not_null,
        !res.has_default,
{
    DoublePrecisionBuilder::new()
}

} // verus!
