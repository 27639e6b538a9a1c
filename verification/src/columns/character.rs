//! Builder for PostgreSQL `CHAR(n)` columns.
use core::marker::PhantomData;
use vstd::prelude::*;

verus! {

/// Builder for PostgreSQL `CHAR(n)` columns, which hold fixed-length, blank-padded strings.
#[derive(Debug)]
pub struct CharBuilder<T> {
    /// Ties the builder to the Rust type that the column holds.
    pub _marker: PhantomData<T>,
    /// Whether this column is the primary key.
    pub is_primary: bool,
    /// Whether this column has a `UNIQUE` constraint.
    pub is_unique: bool,
    /// Whether this column has a `NOT NULL` constraint.
    pub is_not_null: bool,
    /// Declared length of the column.
    pub length: usize,
    /// Whether this column has any default value.
    pub has_default: bool,
}

impl<T> Clone for CharBuilder<T> {
    fn clone(&self) -> (res: Self)
        ensures
            res.is_primary == self.is_primary,
            res.is_unique == self.is_unique,
            res.is_not_null == self.is_not_null,
            res.length == self.length,
            res.has_default == self.has_default,
    {
        CharBuilder { _marker: PhantomData, is_primary: self.is_primary, is_unique: self.is_unique, is_not_null: self.is_not_null, length: self.length, has_default: self.has_default }
    }
}

impl<T> Copy for CharBuilder<T> {

}

impl<T> CharBuilder<T> {
    /// Creates a `CHAR(n)` column builder with its default settings.
    pub fn new() -> (res: Self)
        ensures
            !res.is_primary,
            !res.is_unique,
            !res.is_not_null,
            res.length == 1,
            !res.has_default,
    {
        CharBuilder { _marker: PhantomData, is_primary: false, is_unique: false, is_not_null: false, length: 1, has_default: false }
    }

    /// Sets the declared length of the column.
    pub fn length(self, n: usize) -> (res: Self)
        ensures
            res.is_primary == self.is_primary,
            res.is_unique == self.is_unique,
            res.is_not_null == self.is_not_null,
            res.length == n,
            res.has_default == self.has_default,
    {
        CharBuilder { _marker: PhantomData, is_primary: self.is_primary, is_unique: self.is_unique, is_not_null: self.is_not_null, length: n, has_default: self.has_default }
    }

    /// Makes this column the `PRIMARY KEY`, which also makes it `NOT NULL`.
    pub fn primary(self) -> (res: Self)
        ensures
            res.is_primary,
            res.is_unique == self.is_unique,
            res.is_not_null,
            res.length == self.length,
            res.has_default == self.has_default,
    {
        CharBuilder { _marker: PhantomData, is_primary: true, is_unique: self.is_unique, is_not_null: true, length: self.length, has_default: self.has_default }
    }

    /// Adds a `UNIQUE` constraint to this column.
    pub fn unique(self) -> (res: Self)
        ensures
            res.is_primary == self.is_primary,
            res.is_unique,
            res.is_not_null == self.is_not_null,
            res.length == self.length,
            res.has_default == self.has_default,
    {
        CharBuilder { _marker: PhantomData, is_primary: self.is_primary, is_unique: true, is_not_null: self.is_not_null, length: self.length, has_default: self.has_default }
    }

    /// Adds a `NOT NULL` constraint to this column.
    pub fn not_null(self) -> (res: Self)
        ensures
            res.is_primary == self.is_primary,
            res.is_unique == self.is_unique,
            res.is_not_null,
            res.length == self.length,
            res.has_default == self.has_default,
    {
        CharBuilder { _marker: PhantomData, is_primary: self.is_primary, is_unique: self.is_unique, is_not_null: true, length: self.length, has_default: self.has_default }
    }

    /// Sets a compile-time default value for this column.
    pub fn default(self, _value: &'static str) -> (res: Self)
        ensures
            res.is_primary == self.is_primary,
            res.is_unique == self.is_unique,
            res.is_not_null == self.is_not_null,
            res.length == self.length,
            res.has_default,
    {
        CharBuilder { _marker: PhantomData, is_primary: self.is_primary, is_unique: self.is_unique, is_not_null: self.is_not_null, length: self.length, has_default: true }
    }

    /// Marks this column as having a Rust function that produces its default at runtime.
    pub fn has_default_fn(self) -> (res: Self)
        ensures
            res.is_primary == self.is_primary,
            res.is_unique == self.is_unique,
            res.is_not_null == self.is_not_null,
            res.length == self.length,
            res.has_default,
    {
        CharBuilder { _marker: PhantomData, is_primary: self.is_primary, is_unique: self.is_unique, is_not_null: self.is_not_null, length: self.length, has_default: true }
    }
}

/// Creates a `CHAR(n)` column builder.
pub fn char<T>() -> (res: CharBuilder<T>)
    ensures
        !res.is_primary,
        !res.is_unique,
        !res.is_not_null,
        res.length == 1,
        !res.has_default,
{
    CharBuilder::new()
}

} // verus!
