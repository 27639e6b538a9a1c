//! Result rows of the Data API and decoding their fields.
//!
//! The Data API returns each column as a pre-decoded [`Field`]; NULL is
//! `Field::IsNull(true)`. Doubles travel as their IEEE-754 bit patterns.
use bit_vec::BitVec;
use vstd::prelude::*;

use crate::aws_data_api::interval::{interval_seconds, parse_interval_seconds, IntervalError};
use crate::aws_data_api::temporal::{
    date_parts, parse_date, parse_primitive, parse_time, time_parts, timestamp_parts, CalendarDate,
    ClockTime, DateTimeParts, TemporalError,
};
use crate::bits::{bits_of, bits_text, bitvec_push, bitvec_with_capacity};
use crate::text::{chars_of, copy_bytes};

verus! {

broadcast use vstd::seq_lib::group_seq_properties;

/// An array column value.
#[derive(Debug)]
pub enum ArrayValue {
    /// Nested arrays.
    ArrayValues(Vec<ArrayValue>),
    /// Booleans.
    BooleanValues(Vec<bool>),
    /// Doubles, as IEEE-754 bit patterns.
    DoubleValues(Vec<u64>),
    /// 64-bit integers.
    LongValues(Vec<i64>),
    /// Strings.
    StringValues(Vec<String>),
}

/// A column value of a result row (or a parameter value).
#[derive(Debug)]
pub enum Field {
    /// An array.
    ArrayValue(ArrayValue),
    /// Binary data.
    BlobValue(Vec<u8>),
    /// A boolean.
    BooleanValue(bool),
    /// A double, as its IEEE-754 bit pattern.
    DoubleValue(u64),
    /// `IsNull(true)` marks NULL.
    IsNull(bool),
    /// A 64-bit integer.
    LongValue(i64),
    /// A string.
    StringValue(String),
    /// A value of a kind this library does not know.
    Unknown,
}

/// Metadata of one result column.
#[derive(Debug)]
pub struct ColumnMeta {
    /// Column name, when the service reports it.
    pub name: Option<String>,
}

/// A row returned from the Data API: one field per column, with the column
/// metadata of its result set.
#[derive(Debug)]
pub struct Row {
    fields: Vec<Field>,
    metadata: Vec<ColumnMeta>,
}

/// The kind of field a decoder expected.
#[derive(Debug, Clone, Copy, PartialEq, Eq, Structural)]
pub enum FieldKind {
    /// `LongValue` (integers).
    Long,
    /// `DoubleValue` (floating-point numbers).
    Double,
    /// `BooleanValue`.
    Boolean,
    /// `StringValue`.
    Str,
    /// `BlobValue`.
    Blob,
    /// `ArrayValue`.
    Array,
    /// `LongValues` inside an array.
    LongArray,
    /// `DoubleValues` inside an array.
    DoubleArray,
    /// `BooleanValues` inside an array.
    BooleanArray,
    /// `StringValues` inside an array.
    StringArray,
}

/// Why a field could not be decoded.
#[derive(Debug, Clone, Copy, PartialEq, Eq, Structural)]
pub enum DecodeError {
    /// The row has `columns` columns; column `offset` was read.
    ColumnOutOfRange { columns: usize, offset: usize },
    /// NULL in a column read as non-nullable.
    UnexpectedNull(FieldKind),
    /// A field of another kind than expected.
    WrongKind(FieldKind),
    /// An integer that does not fit the target type.
    IntOutOfRange(i64),
    /// A bit string with a character other than `0` and `1`.
    BadBit(char),
    /// Unparseable INTERVAL text.
    Interval(IntervalError),
    /// Unparseable DATE / TIME / TIMESTAMP text.
    Temporal(TemporalError),
    /// A timestamp with time zone that none of the accepted forms reads.
    Timestamptz,
    /// A timestamp that none of the accepted forms reads.
    Timestamp,
    /// Text that does not spell a UUID.
    Uuid,
    /// Text that does not spell an `INET` address.
    Inet,
    /// Text that does not spell a `CIDR` network.
    Cidr,
    /// Text that is not a JSON document.
    Json,
}

impl Row {
    /// The fields of the row.
    pub closed spec fn spec_fields(&self) -> Seq<Field> {
        self.fields@
    }

    /// The column names of the row's result set.
    pub closed spec fn spec_names(&self) -> Seq<Option<String>> {
        self.metadata@.map_values(|m: ColumnMeta| m.name)
    }

    /// Constructs a row from its fields and the column metadata.
    pub fn new(fields: Vec<Field>, metadata: Vec<ColumnMeta>) -> (res: Self)
        ensures
            res.spec_fields() == fields@,
            res.spec_names() == metadata@.map_values(|m: ColumnMeta| m.name),
    {
        Row { fields, metadata }
    }

    /// Number of columns in this row.
    pub fn len(&self) -> (res: usize)
        ensures
            res == self.spec_fields().len(),
    {
        self.fields.len()
    }

    /// Whether the row has no columns.
    pub fn is_empty(&self) -> (res: bool)
        ensures
            res == (self.spec_fields().len() == 0),
    {
        self.fields.len() == 0
    }

    /// The fields.
    pub fn fields(&self) -> (res: &[Field])
        ensures
            res@ == self.spec_fields(),
    {
        self.fields.as_slice()
    }

    /// The column metadata.
    pub fn metadata(&self) -> (res: &[ColumnMeta])
        ensures
            res@.map_values(|m: ColumnMeta| m.name) == self.spec_names(),
    {
        self.metadata.as_slice()
    }

    /// The name of column `offset`, if the metadata has one.
    pub fn column_name(&self, offset: usize) -> (res: Option<&str>)
        ensures
            offset < self.spec_names().len() && self.spec_names()[offset as int] is Some ==> (res matches Some(
                r,
            ) && r@ == self.spec_names()[offset as int]->0@),
            !(offset < self.spec_names().len() && self.spec_names()[offset as int] is Some) ==> res is None,
    {
        if offset < self.metadata.len() {
            match &self.metadata[offset].name {
                Some(n) => Some(n.as_str()),
                None => None,
            }
        } else {
            None
        }
    }
}

/// Builds a row from the raw response pieces.
pub fn row_from_parts(values: Vec<Field>, metadata: Vec<ColumnMeta>) -> (res: Row)
    ensures
        res.spec_fields() == values@,
        res.spec_names() == metadata@.map_values(|m: ColumnMeta| m.name),
{
    Row::new(values, metadata)
}

/// Field `offset` of `fields`, or the out-of-range error.
pub open spec fn spec_field_at(fields: Seq<Field>, offset: usize) -> Result<Field, DecodeError> {
    if offset < fields.len() {
        Ok(fields[offset as int])
    } else {
        Err(DecodeError::ColumnOutOfRange { columns: fields.len() as usize, offset })
    }
}

/// The field at `offset`, erroring when the row is too short.
pub fn field_at(row: &Row, offset: usize) -> (res: Result<&Field, DecodeError>)
    ensures
        match spec_field_at(row.spec_fields(), offset) {
            Ok(f) => res matches Ok(r) && *r == f,
            Err(e) => res == Err::<&Field, DecodeError>(e),
        },
{
    if offset < row.fields.len() {
        Ok(&row.fields[offset])
    } else {
        Err(DecodeError::ColumnOutOfRange { columns: row.fields.len(), offset })
    }
}

/// Whether a field is the NULL marker.
pub open spec fn spec_is_null(f: Field) -> bool {
    f matches Field::IsNull(true)
}

/// `true` if the field is the explicit NULL marker `IsNull(true)`.
pub fn field_is_null(field: &Field) -> (res: bool)
    ensures
        res == spec_is_null(*field),
{
    match field {
        Field::IsNull(b) => *b,
        _ => false,
    }
}

/// The error for a field that is not of `kind`: NULL or the wrong kind.
pub open spec fn kind_error(f: Field, kind: FieldKind) -> DecodeError {
    if spec_is_null(f) {
        DecodeError::UnexpectedNull(kind)
    } else {
        DecodeError::WrongKind(kind)
    }
}

/// The integer of a `LongValue` field.
pub open spec fn long_of(f: Field) -> Result<i64, DecodeError> {
    match f {
        Field::LongValue(v) => Ok(v),
        _ => Err(kind_error(f, FieldKind::Long)),
    }
}

/// The integer of a `LongValue` field.
pub fn expect_long(field: &Field) -> (res: Result<i64, DecodeError>)
    ensures
        res == long_of(*field),
{
    match field {
        Field::LongValue(v) => Ok(*v),
        Field::IsNull(true) => Err(DecodeError::UnexpectedNull(FieldKind::Long)),
        _ => Err(DecodeError::WrongKind(FieldKind::Long)),
    }
}

/// The boolean of a `BooleanValue` field.
pub open spec fn bool_of(f: Field) -> Result<bool, DecodeError> {
    match f {
        Field::BooleanValue(v) => Ok(v),
        _ => Err(kind_error(f, FieldKind::Boolean)),
    }
}

/// The boolean of a `BooleanValue` field.
pub fn expect_bool(field: &Field) -> (res: Result<bool, DecodeError>)
    ensures
        res == bool_of(*field),
{
    match field {
        Field::BooleanValue(v) => Ok(*v),
        Field::IsNull(true) => Err(DecodeError::UnexpectedNull(FieldKind::Boolean)),
        _ => Err(DecodeError::WrongKind(FieldKind::Boolean)),
    }
}

/// The text of a `StringValue` field.
pub open spec fn string_of(f: Field) -> Result<Seq<char>, DecodeError> {
    match f {
        Field::StringValue(s) => Ok(s@),
        _ => Err(kind_error(f, FieldKind::Str)),
    }
}

/// The text of a `StringValue` field.
pub fn expect_string(field: &Field) -> (res: Result<&str, DecodeError>)
    ensures
        match string_of(*field) {
            Ok(s) => res matches Ok(r) && r@ == s,
            Err(e) => res == Err::<&str, DecodeError>(e),
        },
{
    match field {
        Field::StringValue(s) => Ok(s.as_str()),
        Field::IsNull(true) => Err(DecodeError::UnexpectedNull(FieldKind::Str)),
        _ => Err(DecodeError::WrongKind(FieldKind::Str)),
    }
}

/// The bytes of a `BlobValue` field.
pub open spec fn blob_of(f: Field) -> Result<Seq<u8>, DecodeError> {
    match f {
        Field::BlobValue(b) => Ok(b@),
        _ => Err(kind_error(f, FieldKind::Blob)),
    }
}

/// The bytes of a `BlobValue` field.
pub fn expect_blob(field: &Field) -> (res: Result<&[u8], DecodeError>)
    ensures
        match blob_of(*field) {
            Ok(b) => res matches Ok(r) && r@ == b,
            Err(e) => res == Err::<&[u8], DecodeError>(e),
        },
{
    match field {
        Field::BlobValue(b) => Ok(b.as_slice()),
        Field::IsNull(true) => Err(DecodeError::UnexpectedNull(FieldKind::Blob)),
        _ => Err(DecodeError::WrongKind(FieldKind::Blob)),
    }
}

/// The array of an `ArrayValue` field.
pub open spec fn array_of(f: Field) -> Result<ArrayValue, DecodeError> {
    match f {
        Field::ArrayValue(a) => Ok(a),
        _ => Err(kind_error(f, FieldKind::Array)),
    }
}

/// The array of an `ArrayValue` field.
pub fn expect_array(field: &Field) -> (res: Result<&ArrayValue, DecodeError>)
    ensures
        match array_of(*field) {
            Ok(a) => res matches Ok(r) && *r == a,
            Err(e) => res == Err::<&ArrayValue, DecodeError>(e),
        },
{
    match field {
        Field::ArrayValue(a) => Ok(a),
        Field::IsNull(true) => Err(DecodeError::UnexpectedNull(FieldKind::Array)),
        _ => Err(DecodeError::WrongKind(FieldKind::Array)),
    }
}

/// Whether the field at `offset` is NULL, erroring when out of range.
pub open spec fn spec_null_at(fields: Seq<Field>, offset: usize) -> Result<bool, DecodeError> {
    match spec_field_at(fields, offset) {
        Ok(f) => Ok(spec_is_null(f)),
        Err(e) => Err(e),
    }
}

/// Whether the value at `offset` is NULL (used to decode a composite
/// `Option` from a LEFT JOIN).
pub fn is_null_at(row: &Row, offset: usize) -> (res: Result<bool, DecodeError>)
    ensures
        res == spec_null_at(row.spec_fields(), offset),
{
    let field = field_at(row, offset)?;
    Ok(field_is_null(field))
}

/// An integer column narrowed to `min..=max`.
pub open spec fn spec_int_at(fields: Seq<Field>, offset: usize, min: int, max: int) -> Result<
    i64,
    DecodeError,
> {
    match spec_field_at(fields, offset) {
        Err(e) => Err(e),
        Ok(f) => match long_of(f) {
            Err(e) => Err(e),
            Ok(v) => if min <= v <= max {
                Ok(v)
            } else {
                Err(DecodeError::IntOutOfRange(v))
            },
        },
    }
}

/// A nullable integer column narrowed to `min..=max`.
pub open spec fn spec_opt_int_at(fields: Seq<Field>, offset: usize, min: int, max: int) -> Result<
    Option<i64>,
    DecodeError,
> {
    match spec_field_at(fields, offset) {
        Err(e) => Err(e),
        Ok(f) => if spec_is_null(f) {
            Ok(None)
        } else {
            match spec_int_at(fields, offset, min, max) {
                Ok(v) => Ok(Some(v)),
                Err(e) => Err(e),
            }
        },
    }
}

/// Reads an integer column and checks that it lies in `min..=max`.
pub fn int_at(row: &Row, offset: usize, min: i64, max: i64) -> (res: Result<i64, DecodeError>)
    ensures
        res == spec_int_at(row.spec_fields(), offset, min as int, max as int),
{
    let v = expect_long(field_at(row, offset)?)?;
    if min <= v && v <= max {
        Ok(v)
    } else {
        Err(DecodeError::IntOutOfRange(v))
    }
}

/// Reads a nullable integer column and checks that it lies in `min..=max`.
pub fn opt_int_at(row: &Row, offset: usize, min: i64, max: i64) -> (res: Result<Option<i64>, DecodeError>)
    ensures
        res == spec_opt_int_at(row.spec_fields(), offset, min as int, max as int),
{
    let field = field_at(row, offset)?;
    if field_is_null(field) {
        return Ok(None);
    }
    match int_at(row, offset, min, max) {
        Ok(v) => Ok(Some(v)),
        Err(e) => Err(e),
    }
}

/// An `i64` column.
pub fn i64_at(row: &Row, offset: usize) -> (res: Result<i64, DecodeError>)
    ensures
        res == spec_int_at(row.spec_fields(), offset, i64::MIN as int, i64::MAX as int),
{
    int_at(row, offset, i64::MIN, i64::MAX)
}

/// An `i32` column.
pub fn i32_at(row: &Row, offset: usize) -> (res: Result<i32, DecodeError>)
    ensures
        match spec_int_at(row.spec_fields(), offset, i32::MIN as int, i32::MAX as int) {
            Ok(v) => res == Ok::<i32, DecodeError>(v as i32),
            Err(e) => res == Err::<i32, DecodeError>(e),
        },
{
    let v = int_at(row, offset, i32::MIN as i64, i32::MAX as i64)?;
    Ok(v as i32)
}

/// An `i16` column.
pub fn i16_at(row: &Row, offset: usize) -> (res: Result<i16, DecodeError>)
    ensures
        match spec_int_at(row.spec_fields(), offset, i16::MIN as int, i16::MAX as int) {
            Ok(v) => res == Ok::<i16, DecodeError>(v as i16),
            Err(e) => res == Err::<i16, DecodeError>(e),
        },
{
    let v = int_at(row, offset, i16::MIN as i64, i16::MAX as i64)?;
    Ok(v as i16)
}

/// An `i8` column.
pub fn i8_at(row: &Row, offset: usize) -> (res: Result<i8, DecodeError>)
    ensures
        match spec_int_at(row.spec_fields(), offset, i8::MIN as int, i8::MAX as int) {
            Ok(v) => res == Ok::<i8, DecodeError>(v as i8),
            Err(e) => res == Err::<i8, DecodeError>(e),
        },
{
    let v = int_at(row, offset, i8::MIN as i64, i8::MAX as i64)?;
    Ok(v as i8)
}

/// A `u8` column.
pub fn u8_at(row: &Row, offset: usize) -> (res: Result<u8, DecodeError>)
    ensures
        match spec_int_at(row.spec_fields(), offset, 0, u8::MAX as int) {
            Ok(v) => res == Ok::<u8, DecodeError>(v as u8),
            Err(e) => res == Err::<u8, DecodeError>(e),
        },
{
    let v = int_at(row, offset, 0, u8::MAX as i64)?;
    Ok(v as u8)
}

/// A `u16` column.
pub fn u16_at(row: &Row, offset: usize) -> (res: Result<u16, DecodeError>)
    ensures
        match spec_int_at(row.spec_fields(), offset, 0, u16::MAX as int) {
            Ok(v) => res == Ok::<u16, DecodeError>(v as u16),
            Err(e) => res == Err::<u16, DecodeError>(e),
        },
{
    let v = int_at(row, offset, 0, u16::MAX as i64)?;
    Ok(v as u16)
}

/// A `u32` column.
pub fn u32_at(row: &Row, offset: usize) -> (res: Result<u32, DecodeError>)
    ensures
        match spec_int_at(row.spec_fields(), offset, 0, u32::MAX as int) {
            Ok(v) => res == Ok::<u32, DecodeError>(v as u32),
            Err(e) => res == Err::<u32, DecodeError>(e),
        },
{
    let v = int_at(row, offset, 0, u32::MAX as i64)?;
    Ok(v as u32)
}

/// A nullable `i64` column.
pub fn opt_i64_at(row: &Row, offset: usize) -> (res: Result<Option<i64>, DecodeError>)
    ensures
        res == spec_opt_int_at(row.spec_fields(), offset, i64::MIN as int, i64::MAX as int),
{
    opt_int_at(row, offset, i64::MIN, i64::MAX)
}

/// A nullable `i32` column.
pub fn opt_i32_at(row: &Row, offset: usize) -> (res: Result<Option<i32>, DecodeError>)
    ensures
        match spec_opt_int_at(row.spec_fields(), offset, i32::MIN as int, i32::MAX as int) {
            Ok(Some(v)) => res == Ok::<Option<i32>, DecodeError>(Some(v as i32)),
            Ok(None) => res == Ok::<Option<i32>, DecodeError>(None),
            Err(e) => res == Err::<Option<i32>, DecodeError>(e),
        },
{
    match opt_int_at(row, offset, i32::MIN as i64, i32::MAX as i64)? {
        Some(v) => Ok(Some(v as i32)),
        None => Ok(None),
    }
}

/// A nullable `i16` column.
pub fn opt_i16_at(row: &Row, offset: usize) -> (res: Result<Option<i16>, DecodeError>)
    ensures
        match spec_opt_int_at(row.spec_fields(), offset, i16::MIN as int, i16::MAX as int) {
            Ok(Some(v)) => res == Ok::<Option<i16>, DecodeError>(Some(v as i16)),
            Ok(None) => res == Ok::<Option<i16>, DecodeError>(None),
            Err(e) => res == Err::<Option<i16>, DecodeError>(e),
        },
{
    match opt_int_at(row, offset, i16::MIN as i64, i16::MAX as i64)? {
        Some(v) => Ok(Some(v as i16)),
        None => Ok(None),
    }
}

/// A boolean column.
pub open spec fn spec_bool_at(fields: Seq<Field>, offset: usize) -> Result<bool, DecodeError> {
    match spec_field_at(fields, offset) {
        Err(e) => Err(e),
        Ok(f) => bool_of(f),
    }
}

/// Reads a boolean column.
pub fn bool_at(row: &Row, offset: usize) -> (res: Result<bool, DecodeError>)
    ensures
        res == spec_bool_at(row.spec_fields(), offset),
{
    expect_bool(field_at(row, offset)?)
}

/// Reads a nullable boolean column.
pub fn opt_bool_at(row: &Row, offset: usize) -> (res: Result<Option<bool>, DecodeError>)
    ensures
        match spec_field_at(row.spec_fields(), offset) {
            Err(e) => res == Err::<Option<bool>, DecodeError>(e),
            Ok(f) => if spec_is_null(f) {
                res == Ok::<Option<bool>, DecodeError>(None)
            } else {
                match bool_of(f) {
                    Ok(b) => res == Ok::<Option<bool>, DecodeError>(Some(b)),
                    Err(e) => res == Err::<Option<bool>, DecodeError>(e),
                }
            },
        },
{
    let field = field_at(row, offset)?;
    if field_is_null(field) {
        return Ok(None);
    }
    match expect_bool(field) {
        Ok(b) => Ok(Some(b)),
        Err(e) => Err(e),
    }
}

/// A text column.
pub open spec fn spec_string_at(fields: Seq<Field>, offset: usize) -> Result<Seq<char>, DecodeError> {
    match spec_field_at(fields, offset) {
        Err(e) => Err(e),
        Ok(f) => string_of(f),
    }
}

/// Reads a text column.
pub fn string_at(row: &Row, offset: usize) -> (res: Result<String, DecodeError>)
    ensures
        match spec_string_at(row.spec_fields(), offset) {
            Ok(s) => res matches Ok(r) && r@ == s,
            Err(e) => res == Err::<String, DecodeError>(e),
        },
{
    let s = expect_string(field_at(row, offset)?)?;
    Ok(s.to_string())
}

/// Reads a nullable text column.
pub fn opt_string_at(row: &Row, offset: usize) -> (res: Result<Option<String>, DecodeError>)
    ensures
        match spec_field_at(row.spec_fields(), offset) {
            Err(e) => res == Err::<Option<String>, DecodeError>(e),
            Ok(f) => if spec_is_null(f) {
                res == Ok::<Option<String>, DecodeError>(None)
            } else {
                match string_of(f) {
                    Ok(s) => res matches Ok(Some(r)) && r@ == s,
                    Err(e) => res == Err::<Option<String>, DecodeError>(e),
                }
            },
        },
{
    let field = field_at(row, offset)?;
    if field_is_null(field) {
        return Ok(None);
    }
    let s = expect_string(field)?;
    Ok(Some(s.to_string()))
}

/// Reads a binary column.
pub fn bytes_at(row: &Row, offset: usize) -> (res: Result<Vec<u8>, DecodeError>)
    ensures
        match spec_field_at(row.spec_fields(), offset) {
            Err(e) => res == Err::<Vec<u8>, DecodeError>(e),
            Ok(f) => match blob_of(f) {
                Ok(b) => res matches Ok(r) && r@ == b,
                Err(e) => res == Err::<Vec<u8>, DecodeError>(e),
            },
        },
{
    let b = expect_blob(field_at(row, offset)?)?;
    Ok(copy_bytes(b))
}

/// Reads a nullable binary column.
pub fn opt_bytes_at(row: &Row, offset: usize) -> (res: Result<Option<Vec<u8>>, DecodeError>)
    ensures
        match spec_field_at(row.spec_fields(), offset) {
            Err(e) => res == Err::<Option<Vec<u8>>, DecodeError>(e),
            Ok(f) => if spec_is_null(f) {
                res == Ok::<Option<Vec<u8>>, DecodeError>(None)
            } else {
                match blob_of(f) {
                    Ok(b) => res matches Ok(Some(r)) && r@ == b,
                    Err(e) => res == Err::<Option<Vec<u8>>, DecodeError>(e),
                }
            },
        },
{
    let field = field_at(row, offset)?;
    if field_is_null(field) {
        return Ok(None);
    }
    let b = expect_blob(field)?;
    Ok(Some(copy_bytes(b)))
}

/// Text decoded by `parse`, or the field error.
pub open spec fn text_then<T>(fields: Seq<Field>, offset: usize, parsed: spec_fn(Seq<char>) -> Result<T, DecodeError>) -> Result<T, DecodeError> {
    match spec_string_at(fields, offset) {
        Err(e) => Err(e),
        Ok(s) => parsed(s),
    }
}

/// Whole seconds of an INTERVAL, as a decode result.
pub open spec fn interval_decoded(s: Seq<char>) -> Result<i64, DecodeError> {
    match interval_seconds(s) {
        Ok(v) => Ok(v as i64),
        Err(e) => Err(DecodeError::Interval(e)),
    }
}

/// Reads an INTERVAL column as whole seconds.
pub fn interval_at(row: &Row, offset: usize) -> (res: Result<i64, DecodeError>)
    ensures
        res == text_then(row.spec_fields(), offset, |s: Seq<char>| interval_decoded(s)),
{
    let s = expect_string(field_at(row, offset)?)?;
    match parse_interval_seconds(s) {
        Ok(v) => Ok(v),
        Err(e) => Err(DecodeError::Interval(e)),
    }
}

/// A DATE, as a decode result.
pub open spec fn date_decoded(s: Seq<char>) -> Result<CalendarDate, DecodeError> {
    match date_parts(s) {
        Ok(d) => Ok(d),
        Err(e) => Err(DecodeError::Temporal(e)),
    }
}

/// Reads a DATE column (`YYYY-MM-DD`).
pub fn date_at(row: &Row, offset: usize) -> (res: Result<CalendarDate, DecodeError>)
    ensures
        res == text_then(row.spec_fields(), offset, |s: Seq<char>| date_decoded(s)),
{
    let s = expect_string(field_at(row, offset)?)?;
    match parse_date(s) {
        Ok(v) => Ok(v),
        Err(e) => Err(DecodeError::Temporal(e)),
    }
}

/// A TIME, as a decode result.
pub open spec fn time_decoded(s: Seq<char>) -> Result<ClockTime, DecodeError> {
    match time_parts(s) {
        Ok(t) => Ok(t),
        Err(e) => Err(DecodeError::Temporal(e)),
    }
}

/// Reads a TIME column (`HH:MM:SS[.fff]`).
pub fn time_at(row: &Row, offset: usize) -> (res: Result<ClockTime, DecodeError>)
    ensures
        res == text_then(row.spec_fields(), offset, |s: Seq<char>| time_decoded(s)),
{
    let s = expect_string(field_at(row, offset)?)?;
    match parse_time(s) {
        Ok(v) => Ok(v),
        Err(e) => Err(DecodeError::Temporal(e)),
    }
}

/// A TIMESTAMP, as a decode result.
pub open spec fn timestamp_decoded(s: Seq<char>) -> Result<DateTimeParts, DecodeError> {
    match timestamp_parts(s) {
        Ok(t) => Ok(t),
        Err(e) => Err(DecodeError::Temporal(e)),
    }
}

/// Reads a TIMESTAMP column (`YYYY-MM-DD HH:MM:SS[.fff]`).
pub fn timestamp_at(row: &Row, offset: usize) -> (res: Result<DateTimeParts, DecodeError>)
    ensures
        res == text_then(row.spec_fields(), offset, |s: Seq<char>| timestamp_decoded(s)),
{
    let s = expect_string(field_at(row, offset)?)?;
    match parse_primitive(s) {
        Ok(v) => Ok(v),
        Err(e) => Err(DecodeError::Temporal(e)),
    }
}

/// The bits that `0`/`1` text stands for, or the first other character.
pub open spec fn bits_decoded(s: Seq<char>) -> Result<Seq<bool>, DecodeError> {
    if forall|i: int| 0 <= i < s.len() ==> #[trigger] s[i] == '0' || s[i] == '1' {
        Ok(Seq::new(s.len(), |i: int| s[i] == '1'))
    } else {
        Err(DecodeError::BadBit(s[first_non_bit(s, 0)]))
    }
}

/// Index of the first character of `s[i..]` that is neither `0` nor `1`.
pub open spec fn first_non_bit(s: Seq<char>, i: int) -> int
    decreases s.len() - i,
{
    if i < 0 || i >= s.len() {
        i
    } else if s[i] != '0' && s[i] != '1' {
        i
    } else {
        first_non_bit(s, i + 1)
    }
}

proof fn lemma_first_non_bit(s: Seq<char>, i: int)
    requires
        0 <= i <= s.len(),
        forall|j: int| 0 <= j < i ==> #[trigger] s[j] == '0' || s[j] == '1',
        exists|j: int| 0 <= j < s.len() && s[j] != '0' && s[j] != '1',
    ensures
        0 <= first_non_bit(s, i) < s.len(),
        forall|j: int| 0 <= j < first_non_bit(s, i) ==> #[trigger] s[j] == '0' || s[j] == '1',
        s[first_non_bit(s, i)] != '0' && s[first_non_bit(s, i)] != '1',
    decreases s.len() - i,
{
    if i < s.len() && (s[i] == '0' || s[i] == '1') {
        lemma_first_non_bit(s, i + 1);
    }
}

/// Parses a bit string such as `010110` (one character per bit).
pub fn parse_bits(text: &str) -> (res: Result<BitVec, DecodeError>)
    ensures
        match bits_decoded(text@) {
            Ok(b) => res matches Ok(bv) && bits_of(bv) == b,
            Err(e) => res matches Err(r) && r == e,
        },
{
    let chars = chars_of(text);
    let mut out = bitvec_with_capacity(chars.len());
    let mut i: usize = 0;
    while i < chars.len()
        invariant
            chars@ == text@,
            i <= chars@.len(),
            bits_of(out) == Seq::new(i as nat, |k: int| chars@[k] == '1'),
            forall|j: int| 0 <= j < i ==> #[trigger] chars@[j] == '0' || chars@[j] == '1',
        decreases chars@.len() - i,
    {
        let c = chars[i];
        if c == '0' {
            bitvec_push(&mut out, false);
        } else if c == '1' {
            bitvec_push(&mut out, true);
        } else {
            proof {
                lemma_first_non_bit(text@, 0);
                assert(first_non_bit(text@, 0) == i) by {
                    if first_non_bit(text@, 0) < i {
                        assert(chars@[first_non_bit(text@, 0)] == '0' || chars@[first_non_bit(text@, 0)] == '1');
                    }
                    if first_non_bit(text@, 0) > i {
                        assert(chars@[i as int] == '0' || chars@[i as int] == '1');
                    }
                }
            }
            return Err(DecodeError::BadBit(c));
        }
        assert(bits_of(out) =~= Seq::new((i + 1) as nat, |k: int| chars@[k] == '1'));
        i = i + 1;
    }
    Ok(out)
}

/// The integers of a `LongValues` array.
pub open spec fn longs_of(a: ArrayValue) -> Result<Seq<i64>, DecodeError> {
    match a {
        ArrayValue::LongValues(v) => Ok(v@),
        _ => Err(DecodeError::WrongKind(FieldKind::LongArray)),
    }
}

/// The integers of a `LongValues` array.
pub fn decode_array_i64(array: &ArrayValue) -> (res: Result<Vec<i64>, DecodeError>)
    ensures
        match longs_of(*array) {
            Ok(v) => res matches Ok(r) && r@ == v,
            Err(e) => res matches Err(r) && r == e,
        },
{
    match array {
        ArrayValue::LongValues(v) => Ok(v.clone()),
        _ => Err(DecodeError::WrongKind(FieldKind::LongArray)),
    }
}

/// The booleans of a `BooleanValues` array.
pub open spec fn bools_of(a: ArrayValue) -> Result<Seq<bool>, DecodeError> {
    match a {
        ArrayValue::BooleanValues(v) => Ok(v@),
        _ => Err(DecodeError::WrongKind(FieldKind::BooleanArray)),
    }
}

/// The booleans of a `BooleanValues` array.
pub fn decode_array_bool(array: &ArrayValue) -> (res: Result<Vec<bool>, DecodeError>)
    ensures
        match bools_of(*array) {
            Ok(v) => res matches Ok(r) && r@ == v,
            Err(e) => res matches Err(r) && r == e,
        },
{
    match array {
        ArrayValue::BooleanValues(v) => Ok(v.clone()),
        _ => Err(DecodeError::WrongKind(FieldKind::BooleanArray)),
    }
}

/// The texts of a `StringValues` array.
pub open spec fn strings_of(a: ArrayValue) -> Result<Seq<Seq<char>>, DecodeError> {
    match a {
        ArrayValue::StringValues(v) => Ok(v@.map_values(|s: String| s@)),
        _ => Err(DecodeError::WrongKind(FieldKind::StringArray)),
    }
}

/// The texts of a `StringValues` array.
pub fn decode_array_string(array: &ArrayValue) -> (res: Result<Vec<String>, DecodeError>)
    ensures
        match strings_of(*array) {
            Ok(v) => res matches Ok(r) && r@.map_values(|s: String| s@) == v,
            Err(e) => res matches Err(r) && r == e,
        },
{
    match array {
        ArrayValue::StringValues(v) => {
            let mut out: Vec<String> = Vec::new();
            let mut i: usize = 0;
            while i < v.len()
                invariant
                    i <= v@.len(),
                    out@.len() == i,
                    forall|j: int| 0 <= j < i ==> #[trigger] out@[j]@ == v@[j]@,
                decreases v@.len() - i,
            {
                out.push(v[i].clone());
                i = i + 1;
            }
            assert(out@.map_values(|s: String| s@) =~= v@.map_values(|s: String| s@));
            Ok(out)
        },
        _ => Err(DecodeError::WrongKind(FieldKind::StringArray)),
    }
}

/// An integer-array column, every element narrowed to `min..=max`.
pub open spec fn spec_int_array_at(fields: Seq<Field>, offset: usize, min: int, max: int) -> Result<
    Seq<i64>,
    DecodeError,
> {
    match spec_field_at(fields, offset) {
        Err(e) => Err(e),
        Ok(f) => match array_of(f) {
            Err(e) => Err(e),
            Ok(a) => match longs_of(a) {
                Err(e) => Err(e),
                Ok(v) => if forall|i: int| 0 <= i < v.len() ==> min <= #[trigger] v[i] <= max {
                    Ok(v)
                } else {
                    Err(DecodeError::IntOutOfRange(v[first_out_of_range(v, min, max, 0)]))
                },
            },
        },
    }
}

/// Index of the first element of `v[i..]` outside `min..=max`.
pub open spec fn first_out_of_range(v: Seq<i64>, min: int, max: int, i: int) -> int
    decreases v.len() - i,
{
    if i < 0 || i >= v.len() {
        i
    } else if !(min <= v[i] <= max) {
        i
    } else {
        first_out_of_range(v, min, max, i + 1)
    }
}

/// Reads an integer-array column, narrowing every element to `min..=max`
/// (NULL is an error).
#[verifier::loop_isolation(false)]
pub fn int_array_at(row: &Row, offset: usize, min: i64, max: i64) -> (res: Result<Vec<i64>, DecodeError>)
    ensures
        match spec_int_array_at(row.spec_fields(), offset, min as int, max as int) {
            Ok(v) => res matches Ok(r) && r@ == v,
            Err(e) => res matches Err(r) && r == e,
        },
{
    let field = field_at(row, offset)?;
    let arr = expect_array(field)?;
    let raw = decode_array_i64(arr)?;
    let mut i: usize = 0;
    while i < raw.len()
        invariant
            i <= raw@.len(),
            forall|j: int| 0 <= j < i ==> min <= #[trigger] raw@[j] <= max,
        decreases raw@.len() - i,
    {
        if !(min <= raw[i] && raw[i] <= max) {
            proof {
                lemma_first_out_of_range(raw@, min as int, max as int, 0, i as int);
                assert(!(min <= raw@[i as int] <= max));
            }
            return Err(DecodeError::IntOutOfRange(raw[i]));
        }
        i = i + 1;
    }
    Ok(raw)
}

proof fn lemma_first_out_of_range(v: Seq<i64>, min: int, max: int, i: int, k: int)
    requires
        0 <= i <= k < v.len(),
        forall|j: int| 0 <= j < k ==> min <= #[trigger] v[j] <= max,
        !(min <= v[k] <= max),
    ensures
        first_out_of_range(v, min, max, i) == k,
    decreases k - i,
{
    if i < k {
        assert(min <= v[i] <= max);
        lemma_first_out_of_range(v, min, max, i + 1, k);
    }
}

/// The text that `bits_to_text` writes for a bit string parses back, with
/// `parse_bits`, to the same bits.
pub proof fn law_bit_text_round_trip(bits: Seq<bool>)
    ensures
        bits_decoded(bits_text(bits)) == Ok::<Seq<bool>, DecodeError>(bits),
{
    let s = bits_text(bits);
    assert forall|i: int| 0 <= i < s.len() implies #[trigger] s[i] == '0' || s[i] == '1' by {}
    assert(Seq::new(s.len(), |i: int| s[i] == '1') =~= bits);
}

} // verus!
