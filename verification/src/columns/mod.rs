//! Builders that describe PostgreSQL columns and their constraints.

pub mod bigint;
pub mod boolean;
pub mod bytea;
pub mod character;
pub mod date;
pub mod double_precision;
pub mod integer;
pub mod jsonb;
pub mod numeric;
pub mod single_precision;
pub mod serial;
pub mod smallint;
pub mod text;
pub mod time;
pub mod timestamp;
pub mod uuid;
pub mod varchar;

pub use self::bigint::{BigintBuilder, bigint};
pub use self::boolean::{BooleanBuilder, boolean};
pub use self::bytea::{ByteaBuilder, bytea};
pub use self::character::{CharBuilder, char};
pub use self::date::{DateBuilder, date};
pub use self::double_precision::{DoublePrecisionBuilder, double_precision, float8};
pub use self::integer::{IntegerBuilder, integer};
pub use self::jsonb::{JsonbBuilder, jsonb, json};
pub use self::numeric::{NumericBuilder, numeric, decimal};
pub use self::single_precision::{RealBuilder, float4};
pub use self::serial::{SerialBuilder, serial, bigserial};
pub use self::smallint::{SmallintBuilder, smallint};
pub use self::text::{TextBuilder, text};
pub use self::time::{TimeBuilder, time, timetz};
pub use self::timestamp::{TimestampBuilder, timestamp, timestamptz};
pub use self::uuid::{UuidBuilder, uuid};
pub use self::varchar::{VarcharBuilder, varchar};
