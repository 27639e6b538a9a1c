//! Traits that tables and columns of a schema implement.

pub mod column;
pub mod enums;

pub use self::column::PostgresColumn;
pub use self::enums::PostgresEnum;
pub use crate::relation::PostgresTable;
