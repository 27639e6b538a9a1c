//! Rust enums that stand for PostgreSQL enum types.
use vstd::prelude::*;

use crate::conversions::ConversionError;

verus! {

/// A Rust enum whose variants are the values of a PostgreSQL enum type.
/// Values of such a type travel as their variant names, and read back
/// through `try_from_str`.
pub trait PostgresEnum: Sized {
    /// The name of the enum type in PostgreSQL.
    fn enum_type_name(&self) -> &'static str;

    /// The name of this variant, as PostgreSQL spells it.
    fn variant_name(&self) -> &'static str;

    /// The variant that `value` names.
    fn try_from_str(value: &str) -> Result<Self, ConversionError>;
}

} // verus!
