//! Markers named in the attributes of table definitions, such as
//! `#[column(PRIMARY, SERIAL)]` or `#[PostgresTable(UNLOGGED)]`.
use vstd::prelude::*;

verus! {

/// Marker of a column constraint or option.
#[derive(Debug, Clone, Copy)]
pub struct ColumnMarker;

/// Marks the column as the `PRIMARY KEY`.
pub const PRIMARY: ColumnMarker = ColumnMarker;

/// Alias for [`PRIMARY`].
pub const PRIMARY_KEY: ColumnMarker = ColumnMarker;

/// Makes the column `SERIAL`: an auto-incrementing 32-bit integer.
pub const SERIAL: ColumnMarker = ColumnMarker;

/// Makes the column `BIGSERIAL`: an auto-incrementing 64-bit integer.
pub const BIGSERIAL: ColumnMarker = ColumnMarker;

/// Makes the column `SMALLSERIAL`: an auto-incrementing 16-bit integer.
pub const SMALLSERIAL: ColumnMarker = ColumnMarker;

/// Adds a `UNIQUE` constraint to the column.
pub const UNIQUE: ColumnMarker = ColumnMarker;

/// Makes the column `GENERATED ALWAYS AS IDENTITY`.
pub const GENERATED_IDENTITY: ColumnMarker = ColumnMarker;

/// Stores the field serialized as `JSON`.
pub const JSON: ColumnMarker = ColumnMarker;

/// Stores the field serialized as `JSONB`.
pub const JSONB: ColumnMarker = ColumnMarker;

/// Stores an enum in the column, natively or as text.
pub const ENUM: ColumnMarker = ColumnMarker;

/// Names a function that produces the default of each inserted row.
pub const DEFAULT_FN: ColumnMarker = ColumnMarker;

/// Gives the column a fixed default value.
pub const DEFAULT: ColumnMarker = ColumnMarker;

/// Makes the column a foreign key to another column.
pub const REFERENCES: ColumnMarker = ColumnMarker;

/// Sets what a foreign key does when the referenced row is deleted.
pub const ON_DELETE: ColumnMarker = ColumnMarker;

/// Sets what a foreign key does when the referenced row is updated.
pub const ON_UPDATE: ColumnMarker = ColumnMarker;

/// The action a foreign key takes when the row it references changes.
pub type ReferentialAction = ColumnMarker;

/// Deletes or updates the referencing rows too.
pub const CASCADE: ColumnMarker = ColumnMarker;

/// Sets the referencing columns to `NULL`.
pub const SET_NULL: ColumnMarker = ColumnMarker;

/// Sets the referencing columns to their defaults.
pub const SET_DEFAULT: ColumnMarker = ColumnMarker;

/// Refuses the change while referencing rows exist.
pub const RESTRICT: ColumnMarker = ColumnMarker;

/// Refuses the change at the end of the statement while referencing rows exist.
pub const NO_ACTION: ColumnMarker = ColumnMarker;

/// Adds a `CHECK` constraint to the column.
pub const CHECK: ColumnMarker = ColumnMarker;

/// Marker of the attribute that names a table or a column.
#[derive(Debug, Clone, Copy)]
pub struct NameMarker;

/// Gives the table or column an explicit SQL name.
pub const NAME: NameMarker = NameMarker;

/// Marker of a table option.
#[derive(Debug, Clone, Copy)]
pub struct TableMarker;

/// Creates the table `UNLOGGED`: faster writes, not crash-safe.
pub const UNLOGGED: TableMarker = TableMarker;

/// Creates a `TEMPORARY` table, dropped at the end of the session.
pub const TEMPORARY: TableMarker = TableMarker;

/// Makes the table inherit the columns of a parent table.
pub const INHERITS: TableMarker = TableMarker;

/// Places the table in a given tablespace.
pub const TABLESPACE: TableMarker = TableMarker;

} // verus!
