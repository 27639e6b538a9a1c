//! Builder for PostgreSQL `SERIAL` columns.
use core::marker::PhantomData;
use vstd::prelude::*;

verus! {

/// Builder for PostgreSQL `SERIAL` columns, which hold auto-incrementing integers and are always `NOT NULL`.
#[derive(Debug)]
pub struct SerialBuilder<T> {
    /// Ties the builder to the Rust type that the column holds.
    pub _marker: PhantomData<T>,
    /// Whether this column is the primary key.
    pub is_primary: bool,
    /// Whether this column has a `UNIQUE` constraint.
    pub is_unique: bool,
    /// Whether this column has a `NOT NULL` constraint.
    pub is_not_null: bool,
    /// Whether this is `BIGSERIAL` rather than `SERIAL`.
    pub is_bigserial: bool,
}

impl<T> Clone for SerialBuilder<T> {
    fn clone(&self) -> (res: Self)
        ensures
            res.is_primary == self.is_primary,
            res.is_unique == self.is_unique,
            res.is_not_null == self.is_not_null,
            res.is_bigserial == self.is_bigserial,
    {
        SerialBuilder { _marker: PhantomData, is_primary: self.is_primary, is_unique: self.is_unique, is_not_null: self.is_not_null, is_bigserial: self.is_bigserial }
    }
}

impl<T> Copy for SerialBuilder<T> {

}

impl<T> SerialBuilder<T> {
    /// Creates a `SERIAL` column builder with its default settings.
    pub fn new() -> (res: Self)
        ensures
            !res.is_primary,
            !res.is_unique,
            res.is_not_null,
            !res.is_bigserial,
    {
        SerialBuilder { _marker: PhantomData, is_primary: false, is_unique: false, is_not_null: true, is_bigserial: false }
    }

    /// Makes this column the `PRIMARY KEY`, which also makes it `NOT NULL`.
    pub fn primary(self) -> (res: Self)
        ensures
            res.is_primary,
            res.is_unique == self.is_unique,
            res.is_not_null,
            res.is_bigserial == self.is_bigserial,
    {
        SerialBuilder { _marker: PhantomData, is_primary: true, is_unique: self.is_unique, is_not_null: true, is_bigserial: self.is_bigserial }
    }
}

/// Creates a `SERIAL` column builder.
pub fn serial<T>() -> (res: SerialBuilder<T>)
    ensures
        !res.is_primary,
        !res.is_unique,
        res.is_not_null,
        !res.is_bigserial,
{
    SerialBuilder::new()
}

/// Creates a `BIGSERIAL` column builder: a 64-bit auto-incrementing integer.
pub fn bigserial<T>() -> (res: SerialBuilder<T>)
    ensures
        !res.is_primary,
        !res.is_unique,
        res.is_not_null,
        res.is_bigserial,
{
    SerialBuilder { _marker: PhantomData, is_primary: false, is_unique: false, is_not_null: true, is_bigserial: true }
}

} // verus!
