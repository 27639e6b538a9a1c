//! Builder for PostgreSQL `BOOLEAN` columns.
use core::marker::PhantomData;
use vstd::prelude::*;

verus! {

/// Builder for PostgreSQL `BOOLEAN` columns, which hold true/false values.
#[derive(Debug)]
pub struct BooleanBuilder<T> {
    /// Ties the builder to the Rust type that the column holds.
    pub _marker: PhantomData<T>,
    /// Whether this column has a `NOT NULL` constraint.
    pub is_not_null: bool,
    /// Whether this column has any default value.
    pub has_default: bool,
}

impl<T> Clone for BooleanBuilder<T> {
    fn clone(&self) -> (res: Self)
        ensures
            res.is_not_null == self.is_not_null,
            res.has_default == self.has_default,
    {
        BooleanBuilder { _marker: PhantomData, is_not_null: self.is_not_null, has_default: self.has_default }
    }
}

impl<T> Copy for BooleanBuilder<T> {

}

impl<T> BooleanBuilder<T> {
    /// Creates a `BOOLEAN` column builder with its default settings.
    pub fn new() -> (res: Self)
        ensures
            !res.is_not_null,
            !res.has_default,
    {
        BooleanBuilder { _marker: PhantomData, is_not_null: false, has_default: false }
    }

    /// Adds a `NOT NULL` constraint to this column.
    pub fn not_null(self) -> (res: Self)
        ensures
            res.is_not_null,
            res.has_default == self.has_default,
    {
        BooleanBuilder { _marker: PhantomData, is_not_null: true, has_default: self.has_default }
    }

    /// Sets a compile-time default value for this column.
    pub fn default(self, _value: bool) -> (res: Self)
        ensures
            res.is_not_null == self.is_not_null,
            res.has_default,
    {
        BooleanBuilder { _marker: PhantomData, is_not_null: self.is_not_null, has_default: true }
    }

    /// Marks this column as having a Rust function that produces its default at runtime.
    pub fn has_default_fn(self) -> (res: Self)
        ensures
            res.is_not_null == self.is_not_null,
            res.has_default,
    {
        BooleanBuilder { _marker: PhantomData, is_not_null: self.is_not_null, has_default: true }
    }
}

/// Creates a `BOOLEAN` column builder.
pub fn boolean<T>() -> (res: BooleanBuilder<T>)
    ensures
        !res.is_not_null,
        !res.has_default,
{
    BooleanBuilder::new()
}

} // verus!
