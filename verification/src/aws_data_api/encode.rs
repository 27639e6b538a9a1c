//! Encoding parameter values as Data API fields.
use vstd::prelude::*;

use crate::aws_data_api::field::{ArrayValue, Field};
use crate::bits::{bits_of, bits_text, bits_to_text};
use crate::text::copy_bytes;
use crate::values::{value_text, PostgresValue};

verus! {

broadcast use vstd::seq_lib::group_seq_properties;

/// A hint telling the service how to coerce a string parameter.
#[derive(Debug, Clone, Copy, PartialEq, Eq, Structural)]
pub enum TypeHint {
    /// DATE.
    Date,
    /// DECIMAL / NUMERIC.
    Decimal,
    /// JSON / JSONB.
    Json,
    /// TIME.
    Time,
    /// TIMESTAMP.
    Timestamp,
    /// UUID.
    Uuid,
}

/// A named parameter of a Data API statement.
#[derive(Debug)]
pub struct SqlParameter {
    /// The placeholder name.
    pub name: String,
    /// The value.
    pub value: Field,
    /// How a string value should be coerced, if at all.
    pub type_hint: Option<TypeHint>,
}

/// The shape of an encoded array.
pub enum ArrayShape {
    /// `LongValues` with these integers.
    Longs(Seq<i64>),
    /// `BooleanValues` with these booleans.
    Booleans(Seq<bool>),
    /// `StringValues` with these texts.
    Strings(Seq<Seq<char>>),
}

/// The integer of a SMALLINT / INTEGER / BIGINT value, widened to `i64`.
pub open spec fn long_item(v: PostgresValue) -> Option<i64> {
    match v {
        PostgresValue::Smallint(i) => Some(i as i64),
        PostgresValue::Integer(i) => Some(i as i64),
        PostgresValue::Bigint(i) => Some(i),
        _ => None,
    }
}

/// The boolean of a BOOLEAN value.
pub open spec fn bool_item(v: PostgresValue) -> Option<bool> {
    match v {
        PostgresValue::Boolean(b) => Some(b),
        _ => None,
    }
}

/// Every item's text form.
pub open spec fn item_texts(items: Seq<PostgresValue>) -> Seq<Seq<char>> {
    items.map_values(|v: PostgresValue| value_text(v))
}

/// How an array is encoded: the first item picks integers or booleans when
/// every item is of that family; anything else (and the empty array)
/// becomes strings.
pub open spec fn array_shape(items: Seq<PostgresValue>) -> ArrayShape {
    if items.len() > 0 && long_item(items[0]) is Some && (forall|i: int|
        0 <= i < items.len() ==> #[trigger] long_item(items[i]) is Some) {
        ArrayShape::Longs(items.map_values(|v: PostgresValue| long_item(v)->0))
    } else if items.len() > 0 && bool_item(items[0]) is Some && (forall|i: int|
        0 <= i < items.len() ==> #[trigger] bool_item(items[i]) is Some) {
        ArrayShape::Booleans(items.map_values(|v: PostgresValue| bool_item(v)->0))
    } else {
        ArrayShape::Strings(item_texts(items))
    }
}

/// `f` is the array field of shape `shape`.
pub open spec fn field_has_shape(f: Field, shape: ArrayShape) -> bool {
    match shape {
        ArrayShape::Longs(v) => f matches Field::ArrayValue(ArrayValue::LongValues(w)) && w@ == v,
        ArrayShape::Booleans(v) => f matches Field::ArrayValue(ArrayValue::BooleanValues(w)) && w@
            == v,
        ArrayShape::Strings(v) => f matches Field::ArrayValue(ArrayValue::StringValues(w)) && w@.map_values(
            |s: String| s@,
        ) == v,
    }
}

/// Every item as a string array.
pub fn fallback_string_array(items: &[PostgresValue]) -> (res: Field)
    ensures
        field_has_shape(res, ArrayShape::Strings(item_texts(items@))),
{
    let mut out: Vec<String> = Vec::new();
    let mut i: usize = 0;
    while i < items.len()
        invariant
            i <= items@.len(),
            out@.len() == i,
            forall|j: int| 0 <= j < i ==> #[trigger] out@[j]@ == value_text(items@[j]),
        decreases items@.len() - i,
    {
        out.push(items[i].to_text());
        i = i + 1;
    }
    assert(out@.map_values(|s: String| s@) =~= item_texts(items@));
    Field::ArrayValue(ArrayValue::StringValues(out))
}

/// Collapses a list of values into one array field, as [`array_shape`]
/// says.
pub fn encode_array(items: &[PostgresValue]) -> (res: Field)
    ensures
        field_has_shape(res, array_shape(items@)),
{
    if items.len() == 0 {
        let out: Vec<String> = Vec::new();
        assert(out@.map_values(|s: String| s@) =~= item_texts(items@));
        return Field::ArrayValue(ArrayValue::StringValues(out));
    }
    match &items[0] {
        PostgresValue::Smallint(_) | PostgresValue::Integer(_) | PostgresValue::Bigint(_) => {
            let mut out: Vec<i64> = Vec::new();
            let mut i: usize = 0;
            while i < items.len()
                invariant
                    0 < items@.len(),
                    long_item(items@[0]) is Some,
                    i <= items@.len(),
                    out@.len() == i,
                    forall|j: int| 0 <= j < i ==> #[trigger] long_item(items@[j]) == Some(out@[j]),
                decreases items@.len() - i,
            {
                let x: i64 = match &items[i] {
                    PostgresValue::Smallint(v) => *v as i64,
                    PostgresValue::Integer(v) => *v as i64,
                    PostgresValue::Bigint(v) => *v,
                    _ => {
                        assert(long_item(items@[i as int]) is None);
                        return fallback_string_array(items);
                    },
                };
                out.push(x);
                i = i + 1;
            }
            assert(out@ =~= items@.map_values(|v: PostgresValue| long_item(v)->0));
            Field::ArrayValue(ArrayValue::LongValues(out))
        },
        PostgresValue::Boolean(_) => {
            let mut out: Vec<bool> = Vec::new();
            let mut i: usize = 0;
            while i < items.len()
                invariant
                    0 < items@.len(),
                    bool_item(items@[0]) is Some,
                    long_item(items@[0]) is None,
                    i <= items@.len(),
                    out@.len() == i,
                    forall|j: int| 0 <= j < i ==> #[trigger] bool_item(items@[j]) == Some(out@[j]),
                decreases items@.len() - i,
            {
                let x: bool = match &items[i] {
                    PostgresValue::Boolean(b) => *b,
                    _ => {
                        assert(bool_item(items@[i as int]) is None);
                        return fallback_string_array(items);
                    },
                };
                out.push(x);
                i = i + 1;
            }
            assert(out@ =~= items@.map_values(|v: PostgresValue| bool_item(v)->0));
            Field::ArrayValue(ArrayValue::BooleanValues(out))
        },
        _ => fallback_string_array(items),
    }
}

/// The field and hint of the core value kinds; `None` for the kinds that
/// the other encoders handle.
pub open spec fn core_encoding_ok(v: PostgresValue, res: Option<(Field, Option<TypeHint>)>) -> bool {
    match v {
        PostgresValue::Null => res matches Some((Field::IsNull(true), None)),
        PostgresValue::Smallint(i) => res matches Some((Field::LongValue(x), None)) && x == i as i64,
        PostgresValue::Integer(i) => res matches Some((Field::LongValue(x), None)) && x == i as i64,
        PostgresValue::Bigint(i) => res matches Some((Field::LongValue(x), None)) && x == i,
        PostgresValue::Boolean(b) => res matches Some((Field::BooleanValue(x), None)) && x == b,
        PostgresValue::Text(s) => res matches Some((Field::StringValue(x), None)) && x@ == s@,
        PostgresValue::Bytea(b) => res matches Some((Field::BlobValue(x), None)) && x@ == b@,
        PostgresValue::Uuid(_) => res matches Some((Field::StringValue(x), Some(TypeHint::Uuid)))
            && x@ == value_text(v),
        PostgresValue::Json(s) => res matches Some((Field::StringValue(x), Some(TypeHint::Json)))
            && x@ == s@,
        PostgresValue::Jsonb(s) => res matches Some((Field::StringValue(x), Some(TypeHint::Json)))
            && x@ == s@,
        PostgresValue::Enum(name) => res matches Some((Field::StringValue(x), None)) && x@ == name@,
        PostgresValue::Array(items) => res matches Some((f, None)) && field_has_shape(
            f,
            array_shape(items@),
        ),
        _ => res is None,
    }
}

/// Encodes NULL, integers, booleans, text, bytes, UUID, JSON, enums and
/// arrays.
pub fn encode_core_field(value: &PostgresValue) -> (res: Option<(Field, Option<TypeHint>)>)
    ensures
        core_encoding_ok(*value, res),
{
    match value {
        PostgresValue::Null => Some((Field::IsNull(true), None)),
        PostgresValue::Smallint(v) => Some((Field::LongValue(*v as i64), None)),
        PostgresValue::Integer(v) => Some((Field::LongValue(*v as i64), None)),
        PostgresValue::Bigint(v) => Some((Field::LongValue(*v), None)),
        PostgresValue::Boolean(v) => Some((Field::BooleanValue(*v), None)),
        PostgresValue::Text(s) => Some((Field::StringValue(s.clone()), None)),
        PostgresValue::Bytea(b) => Some((Field::BlobValue(copy_bytes(b.as_slice())), None)),
        PostgresValue::Uuid(_) => Some((Field::StringValue(value.to_text()), Some(TypeHint::Uuid))),
        PostgresValue::Json(s) => Some((Field::StringValue(s.clone()), Some(TypeHint::Json))),
        PostgresValue::Jsonb(s) => Some((Field::StringValue(s.clone()), Some(TypeHint::Json))),
        PostgresValue::Enum(name) => Some((Field::StringValue(name.clone()), None)),
        PostgresValue::Array(items) => Some((encode_array(items.as_slice()), None)),
        _ => None,
    }
}

/// MAC addresses as colon-separated hex; `None` for other kinds.
pub open spec fn network_encoding_ok(v: PostgresValue, res: Option<(Field, Option<TypeHint>)>) -> bool {
    match v {
        PostgresValue::MacAddr(_) => res matches Some((Field::StringValue(x), None)) && x@
            == value_text(v),
        PostgresValue::MacAddr8(_) => res matches Some((Field::StringValue(x), None)) && x@
            == value_text(v),
        _ => res is None,
    }
}

/// Encodes MAC addresses as `aa:bb:...` text.
pub fn encode_cidr_field(value: &PostgresValue) -> (res: Option<(Field, Option<TypeHint>)>)
    ensures
        network_encoding_ok(*value, res),
{
    match value {
        PostgresValue::MacAddr(_) => Some((Field::StringValue(value.to_text()), None)),
        PostgresValue::MacAddr8(_) => Some((Field::StringValue(value.to_text()), None)),
        _ => None,
    }
}

/// Encodes a bit string as its `0`/`1` text; `None` for other kinds.
pub fn encode_bitvec_field(value: &PostgresValue) -> (res: Option<(Field, Option<TypeHint>)>)
    ensures
        match *value {
            PostgresValue::BitVec(bv) => res matches Some((Field::StringValue(x), None)) && x@
                == bits_text(bits_of(bv)),
            _ => res is None,
        },
{
    match value {
        PostgresValue::BitVec(bv) => Some((Field::StringValue(bits_to_text(bv)), None)),
        _ => None,
    }
}

/// The field and hint of any value.
pub open spec fn encoding_ok(v: PostgresValue, f: Field, hint: Option<TypeHint>) -> bool {
    match v {
        PostgresValue::MacAddr(_) | PostgresValue::MacAddr8(_) => network_encoding_ok(v, Some((f, hint))),
        PostgresValue::BitVec(bv) => f matches Field::StringValue(x) && x@ == bits_text(bits_of(bv))
            && hint is None,
        _ => core_encoding_ok(v, Some((f, hint))),
    }
}

/// Encodes a value as a field and optional type hint.
pub fn encode_field(value: &PostgresValue) -> (res: (Field, Option<TypeHint>))
    ensures
        encoding_ok(*value, res.0, res.1),
{
    match encode_core_field(value) {
        Some(r) => r,
        None => match encode_cidr_field(value) {
            Some(r) => r,
            None => match encode_bitvec_field(value) {
                Some(r) => r,
                None => (Field::IsNull(true), None),
            },
        },
    }
}

/// Encodes a value as a named statement parameter.
pub fn encode_param(name: &str, value: &PostgresValue) -> (res: SqlParameter)
    ensures
        res.name@ == name@,
        encoding_ok(*value, res.value, res.type_hint),
{
    let (field, hint) = encode_field(value);
    proof {
        broadcast use vstd::string::to_string_from_display_ensures_for_str;
    }
    SqlParameter { name: name.to_string(), value: field, type_hint: hint }
}

/// An array whose items are all SMALLINT, INTEGER or BIGINT values, in any
/// mix, encodes as `LongValues`: one integer per item, in order, each the
/// item's number widened to 64 bits.
pub proof fn law_integer_arrays_encode_as_longs(items: Seq<PostgresValue>)
    requires
        items.len() > 0,
        forall|i: int|
            0 <= i < items.len() ==> (#[trigger] items[i] is Smallint || items[i] is Integer
                || items[i] is Bigint),
    ensures
        array_shape(items) matches ArrayShape::Longs(w) && w.len() == items.len() && forall|i: int|
            0 <= i < items.len() ==> {
                &&& (#[trigger] items[i] matches PostgresValue::Smallint(x) ==> w[i] as int == x as int)
                &&& (items[i] matches PostgresValue::Integer(x) ==> w[i] as int == x as int)
                &&& (items[i] matches PostgresValue::Bigint(x) ==> w[i] as int == x as int)
            },
{
    assert forall|i: int| 0 <= i < items.len() implies #[trigger] long_item(items[i]) is Some by {
        assert(items[i] is Smallint || items[i] is Integer || items[i] is Bigint);
    }
}

/// An array whose items are all BOOLEAN values encodes as `BooleanValues`:
/// one boolean per item, in order.
pub proof fn law_boolean_arrays_encode_as_booleans(items: Seq<PostgresValue>)
    requires
        items.len() > 0,
        forall|i: int| 0 <= i < items.len() ==> #[trigger] items[i] is Boolean,
    ensures
        array_shape(items) matches ArrayShape::Booleans(w) && w.len() == items.len() && forall|i: int|
            0 <= i < items.len() ==> (#[trigger] items[i] matches PostgresValue::Boolean(b) ==> w[i] == b),
{
    assert(long_item(items[0]) is None);
    assert forall|i: int| 0 <= i < items.len() implies #[trigger] bool_item(items[i]) is Some by {
        assert(items[i] is Boolean);
    }
}

} // verus!
