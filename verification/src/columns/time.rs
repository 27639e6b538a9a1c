//! Builder for PostgreSQL `TIME` columns.
use core::marker::PhantomData;
use vstd::prelude::*;

verus! {

/// Builder for PostgreSQL `TIME` columns, which hold times of day.
#[derive(Debug)]
pub struct TimeBuilder<T> {
    /// Ties the builder to the Rust type that the column holds.
    pub _marker: PhantomData<T>,
    /// Whether this column has a `NOT NULL` constraint.
    pub is_not_null: bool,
    /// Whether this column keeps the time zone (`WITH TIME ZONE`).
    pub with_timezone: bool,
    /// Whether this column defaults to the current date or time on the server.
    pub default_now: bool,
    /// Whether this column has any default value.
    pub has_default: bool,
}

impl<T> Clone for TimeBuilder<T> {
    fn clone(&self) -> (res: Self)
        ensures
            res.is_not_null == self.is_not_null,
            res.with_timezone == self.with_timezone,
            res.default_now == self.default_now,
            res.has_default == self.has_default,
    {
        TimeBuilder { _marker: PhantomData, is_not_null: self.is_not_null, with_timezone: self.with_timezone, default_now: self.default_now, has_default: self.has_default }
    }
}

impl<T> Copy for TimeBuilder<T> {

}

impl<T> TimeBuilder<T> {
    /// Creates a `TIME` column builder with its default settings.
    pub fn new() -> (res: Self)
        ensures
            !res.is_not_null,
            !res.with_timezone,
            !res.default_now,
            !res.has_default,
    {
        TimeBuilder { _marker: PhantomData, is_not_null: false, with_timezone: false, default_now: false, has_default: false }
    }

    /// Adds a `NOT NULL` constraint to this column.
    pub fn not_null(self) -> (res: Self)
        ensures
            res.is_not_null,
            res.with_timezone == self.with_timezone,
            res.default_now == self.default_now,
            res.has_default == self.has_default,
    {
        TimeBuilder { _marker: PhantomData, is_not_null: true, with_timezone: self.with_timezone, default_now: self.default_now, has_default: self.has_default }
    }

    /// Keeps the time zone with each value (`WITH TIME ZONE`).
    pub fn with_timezone(self) -> (res: Self)
        ensures
            res.is_not_null == self.is_not_null,
            res.with_timezone,
            res.default_now == self.default_now,
            res.has_default == self.has_default,
    {
        TimeBuilder { _marker: PhantomData, is_not_null: self.is_not_null, with_timezone: true, default_now: self.default_now, has_default: self.has_default }
    }

    /// Defaults this column to the current date or time on the server.
    pub fn default_now(self) -> (res: Self)
        ensures
            res.is_not_null == self.is_not_null,
            res.with_timezone == self.with_timezone,
            res.default_now,
            res.has_default,
    {
        TimeBuilder { _marker: PhantomData, is_not_null: self.is_not_null, with_timezone: self.with_timezone, default_now: true, has_default: true }
    }

    /// Marks this column as having a Rust function that produces its default at runtime.
    pub fn has_default_fn(self) -> (res: Self)
        ensures
            res.is_not_null == self.is_not_null,
            res.with_timezone == self.with_timezone,
            res.default_now == self.default_now,
            res.has_default,
    {
        TimeBuilder { _marker: PhantomData, is_not_null: self.is_not_null, with_timezone: self.with_timezone, default_now: self.default_now, has_default: true }
    }
}

/// Creates a `TIME` column builder.
pub fn time<T>() -> (res: TimeBuilder<T>)
    ensures
        !res.is_not_null,
        !res.with_timezone,
        !res.default_now,
        !res.has_default,
{
    TimeBuilder::new()
}

/// Creates a `TIME WITH TIME ZONE` column builder.
pub fn timetz<T>() -> (res: TimeBuilder<T>)
    ensures
        !res.is_not_null,
        res.with_timezone,
        !res.default_now,
        !res.has_default,
{
    TimeBuilder { _marker: PhantomData, is_not_null: false, with_timezone: true, default_now: false, has_default: false }
}

} // verus!
