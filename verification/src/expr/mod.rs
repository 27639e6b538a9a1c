//! PostgreSQL-specific operators on expressions.

pub mod array_ops;
pub mod ilike;
pub mod json_ops;
pub mod operators;
pub mod regex;

pub use self::array_ops::{ArrayExprExt, PgArray, array_contained, array_contains, array_overlaps};
pub use self::ilike::{ilike, not_ilike};
pub use self::json_ops::{
    JsonExprExt, json_get, json_get_idx, json_get_path, json_get_path_text, json_get_text,
    json_get_text_idx, jsonb_contained, jsonb_contains, jsonb_exists_all, jsonb_exists_any,
    jsonb_exists_key,
};
pub use self::regex::{RegexExprExt, regex_match, regex_match_ci, regex_not_match, regex_not_match_ci};
