//! Columns of PostgreSQL tables.
use vstd::prelude::*;

verus! {

/// A column of a PostgreSQL table, with the column kinds that PostgreSQL
/// adds: `SERIAL`, `BIGSERIAL` and identity columns. By default a column is
/// none of them.
pub trait PostgresColumn {
    /// Whether the column is `SERIAL`.
    fn serial() -> (res: bool)
        default_ensures
            res == false,
    {
        false
    }

    /// Whether the column is `BIGSERIAL`.
    fn bigserial() -> (res: bool)
        default_ensures
            res == false,
    {
        false
    }

    /// Whether the column is `GENERATED ALWAYS AS IDENTITY`.
    fn generated_identity() -> (res: bool)
        default_ensures
            res == false,
    {
        false
    }
}

} // verus!
