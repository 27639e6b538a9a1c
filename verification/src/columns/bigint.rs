//! Builder for PostgreSQL `BIGINT` columns.
use core::marker::PhantomData;
use vstd::prelude::*;

verus! {

/// Builder for PostgreSQL `BIGINT` columns, which hold 64-bit signed integers.
#[derive(Debug)]
pub struct BigintBuilder<T> {
    /// Ties the builder to the Rust type that the column holds.
    pub _marker: PhantomData<T>,
    /// Whether this column is the primary key.
    pub is_primary: bool,
    /// Whether this column has a `UNIQUE` constraint.
    pub is_unique: bool,
    /// Whether this column has a `NOT NULL` constraint.
    pub is_not_null: bool,
    /// Whether this column has any default value.
    pub has_default: bool,
}

impl<T> Clone for BigintBuilder<T> {
    fn clone(&self) -> (res: Self)
        ensures
            res.is_primary == self.is_primary,
            res.is_unique == self.is_unique,
            res.is_not_null == self.is_not_null,
            res.has_default == self.has_default,
    {
        BigintBuilder { _marker: PhantomData, is_primary: self.is_primary, is_unique: self.is_unique, is_not_null: self.is_not_null, has_default: self.has_default }
    }
}

impl<T> Copy for BigintBuilder<T> {

}

impl<T> BigintBuilder<T> {
    /// Creates a `BIGINT` column builder with its default settings.
    pub fn new() -> (res: Self)
        ensures
            !res.is_primary,
            !res.is_unique,
            !res.is_not_null,
            !res.has_default,
    {
        BigintBuilder { _marker: PhantomData, is_primary: false, is_unique: false, is_not_null: false, has_default: false }
    }

    /// Makes this column the `PRIMARY KEY`, which also makes it `NOT NULL`.
    pub fn primary(self) -> (res: Self)
        ensures
            res.is_primary,
            res.is_unique == self.is_unique,
            res.is_not_null,
            res.has_default == self.has_default,
    {
        BigintBuilder { _marker: PhantomData, is_primary: true, is_unique: self.is_unique, is_not_null: true, has_default: self.has_default }
    }

    /// Adds a `UNIQUE` constraint to this column.
    pub fn unique(self) -> (res: Self)
        ensures
            res.is_primary == self.is_primary,
            res.is_unique,
            res.is_not_null == self.is_not_null,
            res.has_default == self.has_default,
    {
        BigintBuilder { _marker: PhantomData, is_primary: self.is_primary, is_unique: true, is_not_null: self.is_not_null, has_default: self.has_default }
    }

    /// Adds a `NOT NULL` constraint to this column.
    pub fn not_null(self) -> (res: Self)
        ensures
            res.is_primary == self.is_primary,
            res.is_unique == self.is_unique,
            res.is_not_null,
            res.has_default == self.has_default,
    {
        BigintBuilder { _marker: PhantomData, is_primary: self.is_primary, is_unique: self.is_unique, is_not_null: true, has_default: self.has_default }
    }

    /// Sets a compile-time default value for this column.
    pub fn default(self, _value: i64) -> (res: Self)
        ensures
            res.is_primary == self.is_primary,
            res.is_unique == self.is_unique,
            res.is_not_null == self.is_not_null,
            res.has_default,
    {
        BigintBuilder { _marker: PhantomData, is_primary: self.is_primary, is_unique: self.is_unique, is_not_null: self.is_not_null, has_default: true }
    }

    /// Marks this column as having a Rust function that produces its default at runtime.
    pub fn has_default_fn(self) -> (res: Self)
        ensures
            res.is_primary == self.is_primary,
            res.is_unique == self.is_unique,
            res.is_not_null == self.is_not_null,
            res.has_default,
    {
        BigintBuilder { _marker: PhantomData, is_primary: self.is_primary, is_unique: self.is_unique, is_not_null: self.is_not_null, has_default: true }
    }
}

/// Creates a `BIGINT` column builder.
pub fn bigint<T>() -> (res: BigintBuilder<T>)
    ensures
        !res.is_primary,
        !res.is_unique,
        !res.is_not_null,
        !res.has_default,
{
    BigintBuilder::new()
}

} // verus!
