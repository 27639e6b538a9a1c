//! Builder for PostgreSQL `REAL` columns.
use core::marker::PhantomData;
use vstd::prelude::*;

verus! {

/// Builder for PostgreSQL `REAL` columns, which hold 4-byte floating-point numbers.
#[derive(Debug)]
pub struct RealBuilder<T> {
    /// Ties the builder to the Rust type that the column holds.
    pub _marker: PhantomData<T>,
    /// Whether this column has a `NOT NULL` constraint.
    pub is_not_null: bool,
    /// Whether this column has any default value.
    pub has_default: bool,
}

impl<T> Clone for RealBuilder<T> {
    fn clone(&self) -> (res: Self)
        ensures
            res.is_not_null == self.is_not_null,
            res.has_default == self.has_default,
    {
        RealBuilder { _marker: PhantomData, is_not_null: self.is_not_null, has_default: self.has_default }
    }
}

impl<T> Copy for RealBuilder<T> {

}

impl<T> RealBuilder<T> {
    /// Creates a `REAL` column builder with its default settings.
    pub fn new() -> (res: Self)
        ensures
            !res.is_not_null,
            !res.has_default,
    {
        RealBuilder { _marker: PhantomData, is_not_null: false, has_default: false }
    }

    /// Adds a `NOT NULL` constraint to this column.
    pub fn not_null(self) -> (res: Self)
        ensures
            res.is_not_null,
            res.has_default == self.has_default,
    {
        RealBuilder { _marker: PhantomData, is_not_null: true, has_default: self.has_default }
    }

    /// Marks this column as having a Rust function that produces its default at runtime.
    pub fn has_default_fn(self) -> (res: Self)
        ensures
            res.is_not_null == self.is_not_null,
            res.has_default,
    {
        RealBuilder { _marker: PhantomData, is_not_null: self.is_not_null, has_default: true }
    }
}

/// Creates a `REAL` column builder under its alias `FLOAT4`.
pub fn float4<T>() -> (res: RealBuilder<T>)
    ensures
        !res.is_not_null,
        !res.has_default,
{
    RealBuilder::new()
}

} // verus!
