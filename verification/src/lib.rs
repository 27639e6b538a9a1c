//! PostgreSQL support for drizzle: column builders, transaction options,
//! SQL fragments and value codecs, with their contracts.
pub mod attrs;
pub mod common;
pub mod transaction;
pub mod text;
pub mod aws_data_api;
pub mod bits;
pub mod values;
pub mod columns;
pub mod conversions;
pub mod sql;
pub mod relation;
pub mod row_values;
pub mod helpers;
pub mod builder;
pub mod expr;
pub mod json;
pub mod mac;
pub mod traits;
