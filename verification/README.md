# drizzle_postgres

PostgreSQL support for a typed SQL query builder, written in Verus. Every
function of the library carries a contract. Verus proves the contracts of
the library's own functions; the small wrappers marked
`#[verifier::external_body]` that call `std`, `time`, `chrono`, `uuid`,
`bit_vec`, `cidr` and `serde_json` have contracts that are trusted, each
with a doc comment saying what it claims of the outside function.

- `columns`: builders for column definitions and their constraints.
- `sql`: SQL fragments (keywords, quoted identifiers, raw text, bound
  parameters) and the text they render to, with `$1`, `$2`, ... for the
  parameters in order.
- `helpers`, `builder`: the clauses and the typestated builders of
  `SELECT`, `INSERT`, `UPDATE`, `DELETE`, `WITH` and
  `REFRESH MATERIALIZED VIEW`; `builder::prepared` splits a statement
  around its parameters.
- `expr`: PostgreSQL operators (`ILIKE`, array, JSON and regular-expression
  operators).
- `values`, `conversions`, `row_values`, `json`: parameter values and their
  conversions to and from Rust values; `mac` reads MAC addresses back from
  their text.
- `traits`: what tables, columns and PostgreSQL enum types implement.
- `transaction`: transaction options.
- `aws_data_api`: encoding parameters for, and decoding rows from, the
  Aurora Data API; `aws_data_api::geometry` finds the coordinate texts of
  points, paths and boxes, `aws_data_api::network` reads `INET` and `CIDR`
  columns and `aws_data_api::document` checks JSON columns.

`app/` holds what the verified library does not model: floating-point
values and geometric coordinates, conversions into `chrono` and `time`
values, JSON documents as `serde_json` values and network addresses as
`cidr` values.
