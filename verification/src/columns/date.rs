//! Builder for PostgreSQL `DATE` columns.
use core::marker::PhantomData;
use vstd::prelude::*;

verus! {

/// Builder for PostgreSQL `DATE` columns, which hold calendar dates.
#[derive(Debug)]
pub struct DateBuilder<T> {
    /// Ties the builder to the Rust type that the column holds.
    pub _marker: PhantomData<T>,
    /// Whether this column has a `NOT NULL` constraint.
    pub is_not_null: bool,
    /// Whether this column defaults to the current date or time on the server.
    pub default_now: bool,
    /// Whether this column has any default value.
    pub has_default: bool,
}

impl<T> Clone for DateBuilder<T> {
    fn clone(&self) -> (res: Self)
        ensures
            res.is_not_null == self.is_not_null,
            res.default_now == self.default_now,
            res.has_default == self.has_default,
    {
        DateBuilder { _marker: PhantomData, is_not_null: self.is_not_null, default_now: self.default_now, has_default: self.has_default }
    }
}

impl<T> Copy for DateBuilder<T> {

}

impl<T> DateBuilder<T> {
    /// Creates a `DATE` column builder with its default settings.
    pub fn new() -> (res: Self)
        ensures
            !res.is_not_null,
            !res.default_now,
            !res.has_default,
    {
        DateBuilder { _marker: PhantomData, is_not_null: false, default_now: false, has_default: false }
    }

    /// Adds a `NOT NULL` constraint to this column.
    pub fn not_null(self) -> (res: Self)
        ensures
            res.is_not_null,
            res.default_now == self.default_now,
            res.has_default == self.has_default,
    {
        DateBuilder { _marker: PhantomData, is_not_null: true, default_now: self.default_now, has_default: self.has_default }
    }

    /// Defaults this column to the current date or time on the server.
    pub fn default_now(self) -> (res: Self)
        ensures
            res.is_not_null == self.is_not_null,
            res.default_now,
            res.has_default,
    {
        DateBuilder { _marker: PhantomData, is_not_null: self.is_not_null, default_now: true, has_default: true }
    }

    /// Marks this column as having a Rust function that produces its default at runtime.
    pub fn has_default_fn(self) -> (res: Self)
        ensures
            res.is_not_null == self.is_not_null,
            res.default_now == self.default_now,
            res.has_default,
    {
        DateBuilder { _marker: PhantomData, is_not_null: self.is_not_null, default_now: self.default_now, has_default: true }
    }
}

/// Creates a `DATE` column builder.
pub fn date<T>() -> (res: DateBuilder<T>)
    ensures
        !res.is_not_null,
        !res.default_now,
        !res.has_default,
{
    DateBuilder::new()
}

} // verus!
