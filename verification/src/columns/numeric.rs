//! Builder for PostgreSQL `NUMERIC` columns.
use core::marker::PhantomData;
use vstd::prelude::*;

verus! {

/// Builder for PostgreSQL `NUMERIC` columns, which hold exact decimal numbers.
#[derive(Debug)]
pub struct NumericBuilder<T> {
    /// Ties the builder to the Rust type that the column holds.
    pub _marker: PhantomData<T>,
    /// Whether this column has a `NOT NULL` constraint.
    pub is_not_null: bool,
    /// Total number of significant digits (0 when unconstrained).
    pub precision: u16,
    /// Number of digits after the decimal point.
    pub scale: u16,
    /// Whether this column has any default value.
    pub has_default: bool,
}

impl<T> Clone for NumericBuilder<T> {
    fn clone(&self) -> (res: Self)
        ensures
            res.is_not_null == self.is_not_null,
            res.precision == self.precision,
            res.scale == self.scale,
            res.has_default == self.has_default,
    {
        NumericBuilder { _marker: PhantomData, is_not_null: self.is_not_null, precision: self.precision, scale: self.scale, has_default: self.has_default }
    }
}

impl<T> Copy for NumericBuilder<T> {

}

impl<T> NumericBuilder<T> {
    /// Creates a `NUMERIC` column builder with its default settings.
    pub fn new() -> (res: Self)
        ensures
            !res.is_not_null,
            res.precision == 0,
            res.scale == 0,
            !res.has_default,
    {
        NumericBuilder { _marker: PhantomData, is_not_null: false, precision: 0, scale: 0, has_default: false }
    }

    /// Sets the precision and the scale of the column.
    pub fn precision_scale(self, precision: u16, scale: u16) -> (res: Self)
        ensures
            res.is_not_null == self.is_not_null,
            res.precision == precision,
            res.scale == scale,
            res.has_default == self.has_default,
    {
        NumericBuilder { _marker: PhantomData, is_not_null: self.is_not_null, precision: precision, scale: scale, has_default: self.has_default }
    }

    /// Adds a `NOT NULL` constraint to this column.
    pub fn not_null(self) -> (res: Self)
        ensures
            res.is_not_null,
            res.precision == self.precision,
            res.scale == self.scale,
            res.has_default == self.has_default,
    {
        NumericBuilder { _marker: PhantomData, is_not_null: true, precision: self.precision, scale: self.scale, has_default: self.has_default }
    }

    /// Marks this column as having a Rust function that produces its default at runtime.
    pub fn has_default_fn(self) -> (res: Self)
        ensures
            res.is_not_null == self.is_not_null,
            res.precision == self.precision,
            res.scale == self.scale,
            res.has_default,
    {
        NumericBuilder { _marker: PhantomData, is_not_null: self.is_not_null, precision: self.precision, scale: self.scale, has_default: true }
    }
}

/// Creates a `NUMERIC` column builder.
pub fn numeric<T>() -> (res: NumericBuilder<T>)
    ensures
        !res.is_not_null,
        res.precision == 0,
        res.scale == 0,
        !res.has_default,
{
    NumericBuilder::new()
}

/// Creates a `NUMERIC` column builder under its alias `DECIMAL`.
pub fn decimal<T>() -> (res: NumericBuilder<T>)
    ensures
        !res.is_not_null,
        res.precision == 0,
        res.scale == 0,
        !res.has_default,
{
    NumericBuilder::new()
}

} // verus!
