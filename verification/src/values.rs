//! PostgreSQL parameter values and their text form.
//!
//! Floating-point values (`REAL`, `DOUBLE PRECISION`) and the date/time,
//! network-address and geometric values of the driver crates are not part
//! of this model; they are handled by the application layer.
use bit_vec::BitVec;
use vstd::prelude::*;

use crate::bits::{bits_of, bits_text, bits_to_text};
use crate::text::push_char;

verus! {

broadcast use vstd::seq_lib::group_seq_properties;

/// A PostgreSQL value.
#[derive(Debug)]
pub enum PostgresValue {
    /// SMALLINT.
    Smallint(i16),
    /// INTEGER.
    Integer(i32),
    /// BIGINT.
    Bigint(i64),
    /// TEXT, VARCHAR, CHAR.
    Text(String),
    /// BYTEA.
    Bytea(Vec<u8>),
    /// BOOLEAN.
    Boolean(bool),
    /// UUID, as its sixteen bytes.
    Uuid([u8; 16]),
    /// JSON, as its serialized text.
    Json(String),
    /// JSONB, as its serialized text.
    Jsonb(String),
    /// A value of a native or text-backed enum, as its variant name.
    Enum(String),
    /// MACADDR.
    MacAddr([u8; 6]),
    /// MACADDR8.
    MacAddr8([u8; 8]),
    /// BIT / VARBIT.
    BitVec(BitVec),
    /// An ARRAY of values.
    Array(Vec<PostgresValue>),
    /// NULL.
    Null,
}

/// The character of a digit `0..=9`.
pub open spec fn digit_char(d: int) -> char {
    ('0' as int + d) as char
}

/// Decimal text of a natural number, without leading zeros.
pub open spec fn nat_text(n: nat) -> Seq<char>
    decreases n,
{
    if n < 10 {
        seq![digit_char(n as int)]
    } else {
        nat_text(n / 10).push(digit_char((n % 10) as int))
    }
}

/// Decimal text of an integer, as `to_string` writes it.
pub open spec fn int_text(v: int) -> Seq<char> {
    if v < 0 {
        seq!['-'] + nat_text((-v) as nat)
    } else {
        nat_text(v as nat)
    }
}

/// A lower-case hexadecimal digit.
pub open spec fn hex_char(d: int) -> char {
    if d < 10 {
        ('0' as int + d) as char
    } else {
        ('a' as int + d - 10) as char
    }
}

/// A byte as two lower-case hexadecimal digits (`{:02x}`).
pub open spec fn byte_hex(b: u8) -> Seq<char> {
    seq![hex_char(b as int / 16), hex_char(b as int % 16)]
}

/// Bytes as lower-case hexadecimal, two digits each.
pub open spec fn bytes_hex(bytes: Seq<u8>) -> Seq<char>
    decreases bytes.len(),
{
    if bytes.len() == 0 {
        Seq::empty()
    } else {
        bytes_hex(bytes.drop_last()) + byte_hex(bytes.last())
    }
}

/// Bytes as colon-separated hexadecimal pairs, as MAC addresses are written.
pub open spec fn mac_text(bytes: Seq<u8>) -> Seq<char>
    decreases bytes.len(),
{
    if bytes.len() == 0 {
        Seq::empty()
    } else if bytes.len() == 1 {
        byte_hex(bytes[0])
    } else {
        mac_text(bytes.drop_last()) + seq![':'] + byte_hex(bytes.last())
    }
}

/// The hyphenated lower-case form of a UUID (`8-4-4-4-12` hex digits).
pub open spec fn uuid_text(bytes: Seq<u8>) -> Seq<char> {
    let h = bytes_hex(bytes);
    h.subrange(0, 8) + seq!['-'] + h.subrange(8, 12) + seq!['-'] + h.subrange(12, 16) + seq!['-']
        + h.subrange(16, 20) + seq!['-'] + h.subrange(20, 32)
}

/// `true` or `false`.
pub open spec fn bool_text(b: bool) -> Seq<char> {
    if b {
        "true"@
    } else {
        "false"@
    }
}

/// The text form of a value (its `Display`): numbers in decimal, BYTEA as
/// `\x` and hex, arrays as `{a,b,...}`, NULL as the empty string.
pub open spec fn value_text(v: PostgresValue) -> Seq<char>
    decreases v,
{
    match v {
        PostgresValue::Smallint(i) => int_text(i as int),
        PostgresValue::Integer(i) => int_text(i as int),
        PostgresValue::Bigint(i) => int_text(i as int),
        PostgresValue::Text(s) => s@,
        PostgresValue::Bytea(b) => seq!['\\', 'x'] + bytes_hex(b@),
        PostgresValue::Boolean(b) => bool_text(b),
        PostgresValue::Uuid(u) => uuid_text(u@),
        PostgresValue::Json(s) => s@,
        PostgresValue::Jsonb(s) => s@,
        PostgresValue::Enum(name) => name@,
        PostgresValue::MacAddr(m) => mac_text(m@),
        PostgresValue::MacAddr8(m) => mac_text(m@),
        PostgresValue::BitVec(bv) => bits_text(bits_of(bv)),
        PostgresValue::Array(items) => seq!['{'] + items_text(items@, items@.len() as int) + seq!['}'],
        PostgresValue::Null => Seq::empty(),
    }
}

/// The texts of `items[..n]`, separated by commas.
pub open spec fn items_text(items: Seq<PostgresValue>, n: int) -> Seq<char>
    decreases items, n,
{
    if n <= 0 || n > items.len() {
        Seq::empty()
    } else if n == 1 {
        value_text(items[0])
    } else {
        items_text(items, n - 1) + seq![','] + value_text(items[n - 1])
    }
}

/// Appends the decimal text of `n`.
pub(crate) fn push_nat_text(out: &mut String, n: u64)
    ensures
        final(out)@ == old(out)@ + nat_text(n as nat),
    decreases n,
{
    if n >= 10 {
        push_nat_text(out, n / 10);
    }
    let d = (n % 10) as u8;
    let c = (48u8 + d) as char;
    assert(c == digit_char((n % 10) as int));
    push_char(out, c);
}

/// `to_string` of an integer.
pub fn int_to_text(v: i64) -> (res: String)
    ensures
        res@ == int_text(v as int),
{
    let mut out = String::new();
    if v < 0 {
        push_char(&mut out, '-');
        let m: u64 = (0i128 - v as i128) as u64;
        push_nat_text(&mut out, m);
    } else {
        push_nat_text(&mut out, v as u64);
    }
    out
}

fn hex_digit(d: u8) -> (res: char)
    requires
        d < 16,
    ensures
        res == hex_char(d as int),
{
    if d < 10 {
        (48u8 + d) as char
    } else {
        (97u8 + d - 10) as char
    }
}

fn push_byte_hex(out: &mut String, b: u8)
    ensures
        final(out)@ == old(out)@ + byte_hex(b),
{
    push_char(out, hex_digit(b / 16));
    push_char(out, hex_digit(b % 16));
}

/// Appends the hexadecimal of `bytes`.
fn push_bytes_hex(out: &mut String, bytes: &[u8])
    ensures
        final(out)@ == old(out)@ + bytes_hex(bytes@),
{
    let ghost start = out@;
    let mut i: usize = 0;
    while i < bytes.len()
        invariant
            i <= bytes@.len(),
            out@ == start + bytes_hex(bytes@.take(i as int)),
        decreases bytes@.len() - i,
    {
        push_byte_hex(out, bytes[i]);
        assert(bytes@.take(i + 1).drop_last() =~= bytes@.take(i as int));
        i = i + 1;
    }
    assert(bytes@.take(i as int) =~= bytes@);
}

/// Appends `bytes` as colon-separated hexadecimal pairs.
fn push_mac_text(out: &mut String, bytes: &[u8])
    ensures
        final(out)@ == old(out)@ + mac_text(bytes@),
{
    let ghost start = out@;
    let mut i: usize = 0;
    while i < bytes.len()
        invariant
            i <= bytes@.len(),
            out@ == start + mac_text(bytes@.take(i as int)),
        decreases bytes@.len() - i,
    {
        if i > 0 {
            push_char(out, ':');
        }
        push_byte_hex(out, bytes[i]);
        assert(bytes@.take(i + 1).drop_last() =~= bytes@.take(i as int));
        assert(i == 0 ==> bytes@.take(i + 1) =~= seq![bytes@[0]]);
        i = i + 1;
    }
    assert(bytes@.take(i as int) =~= bytes@);
}

/// `Uuid::from_bytes(bytes).to_string()` from the `uuid` crate.
///
/// Claims: the result is the bytes in lower-case hexadecimal, grouped
/// `8-4-4-4-12` by hyphens.
#[verifier::external_body]
fn uuid_to_string(bytes: [u8; 16]) -> (res: String)
    ensures
        res@ == uuid_text(bytes@),
{
    uuid::Uuid::from_bytes(bytes).to_string()
}

/// A value that owns its data; every `PostgresValue` does.
pub type OwnedPostgresValue = PostgresValue;

impl PostgresValue {
    /// The value as an owned value: itself, since a `PostgresValue` owns
    /// its text, bytes and elements.
    pub fn into_owned(self) -> (res: OwnedPostgresValue)
        ensures
            res == self,
    {
        self
    }

    /// The text form of this value (what `Display` writes).
    pub fn to_text(&self) -> (res: String)
        ensures
            res@ == value_text(*self),
        decreases self,
    {
        match self {
            PostgresValue::Smallint(i) => int_to_text(*i as i64),
            PostgresValue::Integer(i) => int_to_text(*i as i64),
            PostgresValue::Bigint(i) => int_to_text(*i),
            PostgresValue::Text(s) => s.clone(),
            PostgresValue::Bytea(b) => {
                let mut out = String::new();
                push_char(&mut out, '\\');
                push_char(&mut out, 'x');
                push_bytes_hex(&mut out, b.as_slice());
                out
            },
            PostgresValue::Boolean(b) => {
                let mut out = String::new();
                if *b {
                    crate::text::push_str(&mut out, "true");
                } else {
                    crate::text::push_str(&mut out, "false");
                }
                out
            },
            PostgresValue::Uuid(u) => uuid_to_string(*u),
            PostgresValue::Json(s) => s.clone(),
            PostgresValue::Jsonb(s) => s.clone(),
            PostgresValue::Enum(name) => name.clone(),
            PostgresValue::MacAddr(m) => {
                let mut out = String::new();
                push_mac_text(&mut out, m.as_slice());
                out
            },
            PostgresValue::MacAddr8(m) => {
                let mut out = String::new();
                push_mac_text(&mut out, m.as_slice());
                out
            },
            PostgresValue::BitVec(bv) => bits_to_text(bv),
            PostgresValue::Array(items) => {
                let mut out = String::new();
                push_char(&mut out, '{');
                let mut i: usize = 0;
                while i < items.len()
                    invariant
                        i <= items@.len(),
                        *self == PostgresValue::Array(*items),
                        out@ == seq!['{'] + items_text(items@, i as int),
                    decreases items@.len() - i,
                {
                    if i > 0 {
                        push_char(&mut out, ',');
                    }
                    proof {
                        assert(decreases_to!(*self => self->Array_0));
                        assert(self->Array_0 == *items);
                        assert(decreases_to!(*items => items@));
                        assert(decreases_to!(items@ => items@[i as int]));
                    }
                    let t = items[i].to_text();
                    crate::text::push_str(&mut out, t.as_str());
                    i = i + 1;
                }
                push_char(&mut out, '}');
                out
            },
            PostgresValue::Null => String::new(),
        }
    }

    /// Whether this value is NULL.
    pub fn is_null(&self) -> (res: bool)
        ensures
            res == (*self is Null),
    {
        match self {
            PostgresValue::Null => true,
            _ => false,
        }
    }

    /// The boolean, if this is BOOLEAN.
    pub fn as_bool(&self) -> (res: Option<bool>)
        ensures
            res == (match *self {
                PostgresValue::Boolean(b) => Some(b),
                _ => None,
            }),
    {
        match self {
            PostgresValue::Boolean(b) => Some(*b),
            _ => None,
        }
    }

    /// The value, if this is SMALLINT.
    pub fn as_i16(&self) -> (res: Option<i16>)
        ensures
            res == (match *self {
                PostgresValue::Smallint(v) => Some(v),
                _ => None,
            }),
    {
        match self {
            PostgresValue::Smallint(v) => Some(*v),
            _ => None,
        }
    }

    /// The value, if this is INTEGER.
    pub fn as_i32(&self) -> (res: Option<i32>)
        ensures
            res == (match *self {
                PostgresValue::Integer(v) => Some(v),
                _ => None,
            }),
    {
        match self {
            PostgresValue::Integer(v) => Some(*v),
            _ => None,
        }
    }

    /// The value, if this is BIGINT.
    pub fn as_i64(&self) -> (res: Option<i64>)
        ensures
            res == (match *self {
                PostgresValue::Bigint(v) => Some(v),
                _ => None,
            }),
    {
        match self {
            PostgresValue::Bigint(v) => Some(*v),
            _ => None,
        }
    }

    /// The text, if this is TEXT.
    pub fn as_str(&self) -> (res: Option<&str>)
        ensures
            match *self {
                PostgresValue::Text(s) => res matches Some(r) && r@ == s@,
                _ => res is None,
            },
    {
        match self {
            PostgresValue::Text(s) => Some(s.as_str()),
            _ => None,
        }
    }

    /// The bytes, if this is BYTEA.
    pub fn as_bytes(&self) -> (res: Option<&[u8]>)
        ensures
            match *self {
                PostgresValue::Bytea(b) => res matches Some(r) && r@ == b@,
                _ => res is None,
            },
    {
        match self {
            PostgresValue::Bytea(b) => Some(b.as_slice()),
            _ => None,
        }
    }

    /// The UUID bytes, if this is UUID.
    pub fn as_uuid(&self) -> (res: Option<[u8; 16]>)
        ensures
            res == (match *self {
                PostgresValue::Uuid(u) => Some(u),
                _ => None,
            }),
    {
        match self {
            PostgresValue::Uuid(u) => Some(*u),
            _ => None,
        }
    }

    /// The serialized JSON, if this is JSON.
    pub fn as_json(&self) -> (res: Option<&str>)
        ensures
            match *self {
                PostgresValue::Json(s) => res matches Some(r) && r@ == s@,
                _ => res is None,
            },
    {
        match self {
            PostgresValue::Json(s) => Some(s.as_str()),
            _ => None,
        }
    }

    /// The serialized JSON, if this is JSONB.
    pub fn as_jsonb(&self) -> (res: Option<&str>)
        ensures
            match *self {
                PostgresValue::Jsonb(s) => res matches Some(r) && r@ == s@,
                _ => res is None,
            },
    {
        match self {
            PostgresValue::Jsonb(s) => Some(s.as_str()),
            _ => None,
        }
    }

    /// The variant name, if this is an enum value.
    pub fn as_enum(&self) -> (res: Option<&str>)
        ensures
            match *self {
                PostgresValue::Enum(s) => res matches Some(r) && r@ == s@,
                _ => res is None,
            },
    {
        match self {
            PostgresValue::Enum(s) => Some(s.as_str()),
            _ => None,
        }
    }

    /// The address, if this is MACADDR.
    pub fn as_macaddr(&self) -> (res: Option<[u8; 6]>)
        ensures
            res == (match *self {
                PostgresValue::MacAddr(m) => Some(m),
                _ => None,
            }),
    {
        match self {
            PostgresValue::MacAddr(m) => Some(*m),
            _ => None,
        }
    }

    /// The address, if this is MACADDR8.
    pub fn as_macaddr8(&self) -> (res: Option<[u8; 8]>)
        ensures
            res == (match *self {
                PostgresValue::MacAddr8(m) => Some(m),
                _ => None,
            }),
    {
        match self {
            PostgresValue::MacAddr8(m) => Some(*m),
            _ => None,
        }
    }

    /// The bits, if this is BIT / VARBIT.
    pub fn as_bitvec(&self) -> (res: Option<&BitVec>)
        ensures
            match *self {
                PostgresValue::BitVec(b) => res matches Some(r) && *r == b,
                _ => res is None,
            },
    {
        match self {
            PostgresValue::BitVec(b) => Some(b),
            _ => None,
        }
    }

    /// The elements, if this is an ARRAY.
    pub fn as_array(&self) -> (res: Option<&[PostgresValue]>)
        ensures
            match *self {
                PostgresValue::Array(items) => res matches Some(r) && r@ == items@,
                _ => res is None,
            },
    {
        match self {
            PostgresValue::Array(items) => Some(items.as_slice()),
            _ => None,
        }
    }
}

/// Whether two values are the same value: equal, except that bit strings
/// are compared by their bits, byte strings by their bytes, and arrays
/// element by element.
pub open spec fn same_value(a: PostgresValue, b: PostgresValue) -> bool
    decreases a,
{
    match a {
        PostgresValue::BitVec(x) => b is BitVec && bits_of(x) == bits_of(b->BitVec_0),
        PostgresValue::Bytea(x) => b is Bytea && x@ == b->Bytea_0@,
        PostgresValue::Array(x) => {
            &&& b is Array
            &&& x@.len() == b->Array_0@.len()
            &&& forall|i: int|
                0 <= i < x@.len() ==> #[trigger] same_value(x@[i], b->Array_0@[i])
        },
        _ => a == b,
    }
}

proof fn lemma_same_array(x: Vec<PostgresValue>, y: Vec<PostgresValue>)
    requires
        x@.len() == y@.len(),
        forall|i: int| 0 <= i < x@.len() ==> same_value(#[trigger] x@[i], y@[i]),
    ensures
        same_value(PostgresValue::Array(x), PostgresValue::Array(y)),
{
}

impl Clone for PostgresValue {
    /// A copy of the value; the same value in the sense of `same_value`.
    fn clone(&self) -> (res: Self)
        ensures
            same_value(res, *self),
        decreases self,
    {
        match self {
            PostgresValue::Smallint(v) => PostgresValue::Smallint(*v),
            PostgresValue::Integer(v) => PostgresValue::Integer(*v),
            PostgresValue::Bigint(v) => PostgresValue::Bigint(*v),
            PostgresValue::Text(v) => PostgresValue::Text(v.clone()),
            PostgresValue::Bytea(v) => PostgresValue::Bytea(crate::text::copy_bytes(v.as_slice())),
            PostgresValue::Boolean(v) => PostgresValue::Boolean(*v),
            PostgresValue::Uuid(v) => PostgresValue::Uuid(*v),
            PostgresValue::Json(v) => PostgresValue::Json(v.clone()),
            PostgresValue::Jsonb(v) => PostgresValue::Jsonb(v.clone()),
            PostgresValue::Enum(v) => PostgresValue::Enum(v.clone()),
            PostgresValue::MacAddr(v) => PostgresValue::MacAddr(*v),
            PostgresValue::MacAddr8(v) => PostgresValue::MacAddr8(*v),
            PostgresValue::BitVec(v) => PostgresValue::BitVec(crate::bits::copy_bits(v)),
            PostgresValue::Array(items) => {
                let mut out: Vec<PostgresValue> = Vec::new();
                let mut i: usize = 0;
                while i < items.len()
                    invariant
                        i <= items@.len(),
                        out@.len() == i,
                        *self == PostgresValue::Array(*items),
                        forall|j: int| 0 <= j < i ==> #[trigger] same_value(out@[j], items@[j]),
                    decreases items@.len() - i,
                {
                    proof {
                        assert(decreases_to!(*self => self->Array_0));
                        assert(self->Array_0 == *items);
                        assert(decreases_to!(*items => items@));
                        assert(decreases_to!(items@ => items@[i as int]));
                    }
                    let item = items[i].clone();
                    out.push(item);
                    i = i + 1;
                }
                proof {
                    lemma_same_array(out, *items);
                }
                PostgresValue::Array(out)
            },
            PostgresValue::Null => PostgresValue::Null,
        }
    }
}

impl Default for PostgresValue {
    /// `NULL`.
    fn default() -> (res: Self)
        ensures
            res == PostgresValue::Null,
    {
        PostgresValue::Null
    }
}

} // verus!
