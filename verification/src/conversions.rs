//! Converting PostgreSQL values into Rust values.
use vstd::prelude::*;

use crate::text::{all_digits, chars_of, digit_value, digits_value, is_digit, parse_bounded, parse_bounded_in, push_str};
use bit_vec::BitVec;

use crate::traits::PostgresEnum;
use crate::values::{PostgresValue, same_value, uuid_text, bool_text, digit_char, int_text, int_to_text, nat_text};
use vstd::utf8::{decode_utf8, encode_utf8, valid_utf8};

verus! {

broadcast use vstd::seq_lib::group_seq_properties;

/// Why a PostgreSQL value could not become the requested Rust value.
#[derive(Debug, Clone, Copy, PartialEq, Eq, Structural)]
pub enum ConversionError {
    /// The number does not fit the target type.
    OutOfRange,
    /// The text does not spell a value of the target type.
    InvalidText,
    /// The bytes are not valid UTF-8.
    InvalidUtf8,
    /// The target type cannot hold a value of this kind.
    Unsupported,
    /// The value is `NULL` and the target type has no `NULL`.
    UnexpectedNull,
}

/// A Rust type that values read from PostgreSQL convert into. Each method
/// takes the value as the driver decoded it.
pub trait FromPostgresValue: Sized {
    /// From a `BOOLEAN`.
    fn from_postgres_bool(value: bool) -> Result<Self, ConversionError>;

    /// From a `SMALLINT`.
    fn from_postgres_i16(value: i16) -> Result<Self, ConversionError>;

    /// From an `INTEGER`.
    fn from_postgres_i32(value: i32) -> Result<Self, ConversionError>;

    /// From a `BIGINT`.
    fn from_postgres_i64(value: i64) -> Result<Self, ConversionError>;

    /// From text.
    fn from_postgres_text(value: &str) -> Result<Self, ConversionError>;

    /// From a `BYTEA`.
    fn from_postgres_bytes(value: &[u8]) -> Result<Self, ConversionError>;

    /// From `NULL`; refused unless the type has a `NULL`.
    fn from_postgres_null() -> (res: Result<Self, ConversionError>)
        default_ensures
            res == Err::<Self, ConversionError>(ConversionError::UnexpectedNull),
    {
        Err(ConversionError::UnexpectedNull)
    }

    /// From a `UUID`, given as its sixteen bytes; refused by default.
    fn from_postgres_uuid(value: [u8; 16]) -> (res: Result<Self, ConversionError>)
        default_ensures
            res == Err::<Self, ConversionError>(ConversionError::Unsupported),
    {
        Err(ConversionError::Unsupported)
    }

    /// From a `JSON` document, given as its text; refused by default.
    fn from_postgres_json(value: String) -> (res: Result<Self, ConversionError>)
        default_ensures
            res == Err::<Self, ConversionError>(ConversionError::Unsupported),
    {
        Err(ConversionError::Unsupported)
    }

    /// From a `JSONB` document, given as its text; refused by default.
    fn from_postgres_jsonb(value: String) -> (res: Result<Self, ConversionError>)
        default_ensures
            res == Err::<Self, ConversionError>(ConversionError::Unsupported),
    {
        Err(ConversionError::Unsupported)
    }

    /// From a `MACADDR`; refused by default.
    fn from_postgres_macaddr(value: [u8; 6]) -> (res: Result<Self, ConversionError>)
        default_ensures
            res == Err::<Self, ConversionError>(ConversionError::Unsupported),
    {
        Err(ConversionError::Unsupported)
    }

    /// From a `MACADDR8`; refused by default.
    fn from_postgres_macaddr8(value: [u8; 8]) -> (res: Result<Self, ConversionError>)
        default_ensures
            res == Err::<Self, ConversionError>(ConversionError::Unsupported),
    {
        Err(ConversionError::Unsupported)
    }

    /// From a `BIT` or `BIT VARYING` string; refused by default.
    fn from_postgres_bitvec(value: BitVec) -> (res: Result<Self, ConversionError>)
        default_ensures
            res == Err::<Self, ConversionError>(ConversionError::Unsupported),
    {
        Err(ConversionError::Unsupported)
    }

    /// From an `ARRAY`; refused by default.
    fn from_postgres_array(value: Vec<PostgresValue>) -> (res: Result<Self, ConversionError>)
        default_ensures
            res == Err::<Self, ConversionError>(ConversionError::Unsupported),
    {
        Err(ConversionError::Unsupported)
    }
}

/// `str::to_lowercase(s)` compared with the words PostgreSQL accepts as
/// booleans. Only ASCII letters lower-case to the ASCII letters of these
/// words, so lower-casing the ASCII letters alone decides the comparison.
pub open spec fn bool_word(s: Seq<char>) -> Option<bool> {
    let l = ascii_lower(s);
    if l == "true"@ || l == "t"@ || l == "1"@ || l == "yes"@ || l == "on"@ {
        Some(true)
    } else if l == "false"@ || l == "f"@ || l == "0"@ || l == "no"@ || l == "off"@ {
        Some(false)
    } else {
        None
    }
}

/// The lower-case form of an ASCII letter; other characters unchanged.
pub open spec fn lower_char(c: char) -> char {
    if 'A' <= c && c <= 'Z' {
        ((c as int) + 32) as char
    } else {
        c
    }
}

/// `s` with its ASCII letters lower-cased.
pub open spec fn ascii_lower(s: Seq<char>) -> Seq<char> {
    s.map_values(|c: char| lower_char(c))
}

/// The `n` little-endian bytes of `x`.
pub open spec fn le_bytes(x: nat, n: nat) -> Seq<u8>
    decreases n,
{
    if n == 0 {
        seq![]
    } else {
        seq![(x % 256) as u8] + le_bytes(x / 256, (n - 1) as nat)
    }
}

/// The two's-complement bits of `v` read as an unsigned number below `modulus`.
pub open spec fn twos_complement(v: int, modulus: int) -> nat {
    (if v < 0 { v + modulus } else { v }) as nat
}

fn lower_char_exec(c: char) -> (res: char)
    ensures
        res == lower_char(c),
{
    if 'A' <= c && c <= 'Z' {
        let u = (c as u32) + 32;
        assert(u < 0x80);
        ((u as u8) as char)
    } else {
        c
    }
}

fn equals_word(s: &[char], word: &str) -> (res: bool)
    ensures
        res == (s@ == word@),
{
    let w = chars_of(word);
    if s.len() != w.len() {
        return false;
    }
    let mut i: usize = 0;
    while i < s.len()
        invariant
            i <= s@.len(),
            s@.len() == w@.len(),
            w@ == word@,
            s@.take(i as int) == w@.take(i as int),
        decreases s@.len() - i,
    {
        if s[i] != w[i] {
            assert(s@[i as int] != w@[i as int]);
            return false;
        }
        assert(s@.take(i + 1) =~= w@.take(i + 1));
        i = i + 1;
    }
    assert(s@ =~= s@.take(s@.len() as int));
    assert(w@ =~= w@.take(w@.len() as int));
    true
}

/// The boolean that PostgreSQL text spells, ignoring case.
pub fn parse_bool_word(value: &str) -> (res: Option<bool>)
    ensures
        res == bool_word(value@),
{
    let cs = chars_of(value);
    let mut low: Vec<char> = Vec::new();
    let mut i: usize = 0;
    while i < cs.len()
        invariant
            i <= cs@.len(),
            cs@ == value@,
            low@ == ascii_lower(cs@.take(i as int)),
        decreases cs@.len() - i,
    {
        let c = lower_char_exec(cs[i]);
        low.push(c);
        i = i + 1;
        assert(low@ =~= ascii_lower(cs@.take(i as int)));
    }
    assert(cs@.take(cs@.len() as int) == cs@);
    let l = low.as_slice();
    if equals_word(l, "true") || equals_word(l, "t") || equals_word(l, "1") || equals_word(l, "yes")
        || equals_word(l, "on") {
        Some(true)
    } else if equals_word(l, "false") || equals_word(l, "f") || equals_word(l, "0") || equals_word(
        l,
        "no",
    ) || equals_word(l, "off") {
        Some(false)
    } else {
        None
    }
}

/// The `n` little-endian bytes of `x`.
fn le_bytes_of(x: u64, n: usize) -> (res: Vec<u8>)
    requires
        n <= 8,
    ensures
        res@ == le_bytes(x as nat, n as nat),
{
    let mut out: Vec<u8> = Vec::new();
    let mut rest: u64 = x;
    let mut i: usize = 0;
    while i < n
        invariant
            i <= n <= 8,
            out@ + le_bytes(rest as nat, (n - i) as nat) == le_bytes(x as nat, n as nat),
        decreases n - i,
    {
        let b = (rest % 256) as u8;
        proof {
            assert(le_bytes(rest as nat, (n - i) as nat) == seq![b] + le_bytes((rest / 256) as nat, (n - i - 1) as nat));
        }
        out.push(b);
        rest = rest / 256;
        i = i + 1;
        assert(out@ + le_bytes(rest as nat, (n - i) as nat) =~= le_bytes(x as nat, n as nat));
    }
    assert(out@ =~= le_bytes(x as nat, n as nat));
    out
}

/// `core::str::from_utf8`: the text that `bytes` encode in UTF-8.
///
/// Claims: `None` exactly when `bytes` are not valid UTF-8 (as vstd's
/// `valid_utf8` defines it); otherwise the text whose UTF-8 encoding is
/// `bytes`.
#[verifier::external_body]
fn utf8_text(bytes: &[u8]) -> (res: Option<&str>)
    ensures
        res matches Some(s) ==> encode_utf8(s@) == bytes@,
        res is None <==> !valid_utf8(bytes@),
{
    match core::str::from_utf8(bytes) {
        Ok(s) => Some(s),
        Err(_) => None,
    }
}

/// A copy of `bytes`.
fn copy_bytes_vec(bytes: &[u8]) -> (res: Vec<u8>)
    ensures
        res@ == bytes@,
{
    crate::text::copy_bytes(bytes)
}


impl FromPostgresValue for i8 {
    fn from_postgres_bool(value: bool) -> (res: Result<i8, ConversionError>)
        ensures
            res == Ok::<i8, ConversionError>(if value { 1 } else { 0 }),
    {
        Ok(if value { 1 } else { 0 })
    }

    fn from_postgres_i16(value: i16) -> (res: Result<i8, ConversionError>)
        ensures
            match res {
                Ok(r) => i8::MIN <= value <= i8::MAX && r == value,
                Err(e) => !(i8::MIN <= value <= i8::MAX) && e == ConversionError::OutOfRange,
            },
    {
        if (i8::MIN as i128) <= (value as i128) && (value as i128) <= (i8::MAX as i128) {
            Ok(value as i8)
        } else {
            Err(ConversionError::OutOfRange)
        }
    }

    fn from_postgres_i32(value: i32) -> (res: Result<i8, ConversionError>)
        ensures
            match res {
                Ok(r) => i8::MIN <= value <= i8::MAX && r == value,
                Err(e) => !(i8::MIN <= value <= i8::MAX) && e == ConversionError::OutOfRange,
            },
    {
        if (i8::MIN as i128) <= (value as i128) && (value as i128) <= (i8::MAX as i128) {
            Ok(value as i8)
        } else {
            Err(ConversionError::OutOfRange)
        }
    }

    fn from_postgres_i64(value: i64) -> (res: Result<i8, ConversionError>)
        ensures
            match res {
                Ok(r) => i8::MIN <= value <= i8::MAX && r == value,
                Err(e) => !(i8::MIN <= value <= i8::MAX) && e == ConversionError::OutOfRange,
            },
    {
        if (i8::MIN as i128) <= (value as i128) && (value as i128) <= (i8::MAX as i128) {
            Ok(value as i8)
        } else {
            Err(ConversionError::OutOfRange)
        }
    }

    fn from_postgres_text(value: &str) -> (res: Result<i8, ConversionError>)
        ensures
            match res {
                Ok(r) => parse_bounded(value@, true, i8::MIN as int, i8::MAX as int) == Some(r as int),
                Err(e) => parse_bounded(value@, true, i8::MIN as int, i8::MAX as int) is None
                    && e == ConversionError::InvalidText,
            },
    {
        let cs = chars_of(value);
        match parse_bounded_in(cs.as_slice(), 0, cs.len(), true, i8::MIN as i128, i8::MAX as i128) {
            Some(v) => {
                assert(cs@.subrange(0, cs@.len() as int) == value@);
                Ok(v as i8)
            },
            None => {
                assert(cs@.subrange(0, cs@.len() as int) == value@);
                Err(ConversionError::InvalidText)
            },
        }
    }

    fn from_postgres_bytes(value: &[u8]) -> (res: Result<i8, ConversionError>)
        ensures
            res == Err::<i8, ConversionError>(ConversionError::Unsupported),
    {
        Err(ConversionError::Unsupported)
    }
}

impl FromPostgresValue for i16 {
    fn from_postgres_bool(value: bool) -> (res: Result<i16, ConversionError>)
        ensures
            res == Ok::<i16, ConversionError>(if value { 1 } else { 0 }),
    {
        Ok(if value { 1 } else { 0 })
    }

    fn from_postgres_i16(value: i16) -> (res: Result<i16, ConversionError>)
        ensures
            res == Ok::<i16, ConversionError>(value),
    {
        Ok(value)
    }

    fn from_postgres_i32(value: i32) -> (res: Result<i16, ConversionError>)
        ensures
            match res {
                Ok(r) => i16::MIN <= value <= i16::MAX && r == value,
                Err(e) => !(i16::MIN <= value <= i16::MAX) && e == ConversionError::OutOfRange,
            },
    {
        if (i16::MIN as i128) <= (value as i128) && (value as i128) <= (i16::MAX as i128) {
            Ok(value as i16)
        } else {
            Err(ConversionError::OutOfRange)
        }
    }

    fn from_postgres_i64(value: i64) -> (res: Result<i16, ConversionError>)
        ensures
            match res {
                Ok(r) => i16::MIN <= value <= i16::MAX && r == value,
                Err(e) => !(i16::MIN <= value <= i16::MAX) && e == ConversionError::OutOfRange,
            },
    {
        if (i16::MIN as i128) <= (value as i128) && (value as i128) <= (i16::MAX as i128) {
            Ok(value as i16)
        } else {
            Err(ConversionError::OutOfRange)
        }
    }

    fn from_postgres_text(value: &str) -> (res: Result<i16, ConversionError>)
        ensures
            match res {
                Ok(r) => parse_bounded(value@, true, i16::MIN as int, i16::MAX as int) == Some(r as int),
                Err(e) => parse_bounded(value@, true, i16::MIN as int, i16::MAX as int) is None
                    && e == ConversionError::InvalidText,
            },
    {
        let cs = chars_of(value);
        match parse_bounded_in(cs.as_slice(), 0, cs.len(), true, i16::MIN as i128, i16::MAX as i128) {
            Some(v) => {
                assert(cs@.subrange(0, cs@.len() as int) == value@);
                Ok(v as i16)
            },
            None => {
                assert(cs@.subrange(0, cs@.len() as int) == value@);
                Err(ConversionError::InvalidText)
            },
        }
    }

    fn from_postgres_bytes(value: &[u8]) -> (res: Result<i16, ConversionError>)
        ensures
            res == Err::<i16, ConversionError>(ConversionError::Unsupported),
    {
        Err(ConversionError::Unsupported)
    }
}

impl FromPostgresValue for i32 {
    fn from_postgres_bool(value: bool) -> (res: Result<i32, ConversionError>)
        ensures
            res == Ok::<i32, ConversionError>(if value { 1 } else { 0 }),
    {
        Ok(if value { 1 } else { 0 })
    }

    fn from_postgres_i16(value: i16) -> (res: Result<i32, ConversionError>)
        ensures
            match res {
                Ok(r) => i32::MIN <= value <= i32::MAX && r == value,
                Err(e) => !(i32::MIN <= value <= i32::MAX) && e == ConversionError::OutOfRange,
            },
    {
        if (i32::MIN as i128) <= (value as i128) && (value as i128) <= (i32::MAX as i128) {
            Ok(value as i32)
        } else {
            Err(ConversionError::OutOfRange)
        }
    }

    fn from_postgres_i32(value: i32) -> (res: Result<i32, ConversionError>)
        ensures
            res == Ok::<i32, ConversionError>(value),
    {
        Ok(value)
    }

    fn from_postgres_i64(value: i64) -> (res: Result<i32, ConversionError>)
        ensures
            match res {
                Ok(r) => i32::MIN <= value <= i32::MAX && r == value,
                Err(e) => !(i32::MIN <= value <= i32::MAX) && e == ConversionError::OutOfRange,
            },
    {
        if (i32::MIN as i128) <= (value as i128) && (value as i128) <= (i32::MAX as i128) {
            Ok(value as i32)
        } else {
            Err(ConversionError::OutOfRange)
        }
    }

    fn from_postgres_text(value: &str) -> (res: Result<i32, ConversionError>)
        ensures
            match res {
                Ok(r) => parse_bounded(value@, true, i32::MIN as int, i32::MAX as int) == Some(r as int),
                Err(e) => parse_bounded(value@, true, i32::MIN as int, i32::MAX as int) is None
                    && e == ConversionError::InvalidText,
            },
    {
        let cs = chars_of(value);
        match parse_bounded_in(cs.as_slice(), 0, cs.len(), true, i32::MIN as i128, i32::MAX as i128) {
            Some(v) => {
                assert(cs@.subrange(0, cs@.len() as int) == value@);
                Ok(v as i32)
            },
            None => {
                assert(cs@.subrange(0, cs@.len() as int) == value@);
                Err(ConversionError::InvalidText)
            },
        }
    }

    fn from_postgres_bytes(value: &[u8]) -> (res: Result<i32, ConversionError>)
        ensures
            res == Err::<i32, ConversionError>(ConversionError::Unsupported),
    {
        Err(ConversionError::Unsupported)
    }
}

impl FromPostgresValue for i64 {
    fn from_postgres_bool(value: bool) -> (res: Result<i64, ConversionError>)
        ensures
            res == Ok::<i64, ConversionError>(if value { 1 } else { 0 }),
    {
        Ok(if value { 1 } else { 0 })
    }

    fn from_postgres_i16(value: i16) -> (res: Result<i64, ConversionError>)
        ensures
            match res {
                Ok(r) => i64::MIN <= value <= i64::MAX && r == value,
                Err(e) => !(i64::MIN <= value <= i64::MAX) && e == ConversionError::OutOfRange,
            },
    {
        if (i64::MIN as i128) <= (value as i128) && (value as i128) <= (i64::MAX as i128) {
            Ok(value as i64)
        } else {
            Err(ConversionError::OutOfRange)
        }
    }

    fn from_postgres_i32(value: i32) -> (res: Result<i64, ConversionError>)
        ensures
            match res {
                Ok(r) => i64::MIN <= value <= i64::MAX && r == value,
                Err(e) => !(i64::MIN <= value <= i64::MAX) && e == ConversionError::OutOfRange,
            },
    {
        if (i64::MIN as i128) <= (value as i128) && (value as i128) <= (i64::MAX as i128) {
            Ok(value as i64)
        } else {
            Err(ConversionError::OutOfRange)
        }
    }

    fn from_postgres_i64(value: i64) -> (res: Result<i64, ConversionError>)
        ensures
            res == Ok::<i64, ConversionError>(value),
    {
        Ok(value)
    }

    fn from_postgres_text(value: &str) -> (res: Result<i64, ConversionError>)
        ensures
            match res {
                Ok(r) => parse_bounded(value@, true, i64::MIN as int, i64::MAX as int) == Some(r as int),
                Err(e) => parse_bounded(value@, true, i64::MIN as int, i64::MAX as int) is None
                    && e == ConversionError::InvalidText,
            },
    {
        let cs = chars_of(value);
        match parse_bounded_in(cs.as_slice(), 0, cs.len(), true, i64::MIN as i128, i64::MAX as i128) {
            Some(v) => {
                assert(cs@.subrange(0, cs@.len() as int) == value@);
                Ok(v as i64)
            },
            None => {
                assert(cs@.subrange(0, cs@.len() as int) == value@);
                Err(ConversionError::InvalidText)
            },
        }
    }

    fn from_postgres_bytes(value: &[u8]) -> (res: Result<i64, ConversionError>)
        ensures
            res == Err::<i64, ConversionError>(ConversionError::Unsupported),
    {
        Err(ConversionError::Unsupported)
    }
}

impl FromPostgresValue for isize {
    fn from_postgres_bool(value: bool) -> (res: Result<isize, ConversionError>)
        ensures
            res == Ok::<isize, ConversionError>(if value { 1 } else { 0 }),
    {
        Ok(if value { 1 } else { 0 })
    }

    fn from_postgres_i16(value: i16) -> (res: Result<isize, ConversionError>)
        ensures
            match res {
                Ok(r) => isize::MIN <= value <= isize::MAX && r == value,
                Err(e) => !(isize::MIN <= value <= isize::MAX) && e == ConversionError::OutOfRange,
            },
    {
        if (isize::MIN as i128) <= (value as i128) && (value as i128) <= (isize::MAX as i128) {
            Ok(value as isize)
        } else {
            Err(ConversionError::OutOfRange)
        }
    }

    fn from_postgres_i32(value: i32) -> (res: Result<isize, ConversionError>)
        ensures
            match res {
                Ok(r) => isize::MIN <= value <= isize::MAX && r == value,
                Err(e) => !(isize::MIN <= value <= isize::MAX) && e == ConversionError::OutOfRange,
            },
    {
        if (isize::MIN as i128) <= (value as i128) && (value as i128) <= (isize::MAX as i128) {
            Ok(value as isize)
        } else {
            Err(ConversionError::OutOfRange)
        }
    }

    fn from_postgres_i64(value: i64) -> (res: Result<isize, ConversionError>)
        ensures
            match res {
                Ok(r) => isize::MIN <= value <= isize::MAX && r == value,
                Err(e) => !(isize::MIN <= value <= isize::MAX) && e == ConversionError::OutOfRange,
            },
    {
        if (isize::MIN as i128) <= (value as i128) && (value as i128) <= (isize::MAX as i128) {
            Ok(value as isize)
        } else {
            Err(ConversionError::OutOfRange)
        }
    }

    fn from_postgres_text(value: &str) -> (res: Result<isize, ConversionError>)
        ensures
            match res {
                Ok(r) => parse_bounded(value@, true, isize::MIN as int, isize::MAX as int) == Some(r as int),
                Err(e) => parse_bounded(value@, true, isize::MIN as int, isize::MAX as int) is None
                    && e == ConversionError::InvalidText,
            },
    {
        let cs = chars_of(value);
        match parse_bounded_in(cs.as_slice(), 0, cs.len(), true, isize::MIN as i128, isize::MAX as i128) {
            Some(v) => {
                assert(cs@.subrange(0, cs@.len() as int) == value@);
                Ok(v as isize)
            },
            None => {
                assert(cs@.subrange(0, cs@.len() as int) == value@);
                Err(ConversionError::InvalidText)
            },
        }
    }

    fn from_postgres_bytes(value: &[u8]) -> (res: Result<isize, ConversionError>)
        ensures
            res == Err::<isize, ConversionError>(ConversionError::Unsupported),
    {
        Err(ConversionError::Unsupported)
    }
}

impl FromPostgresValue for u8 {
    fn from_postgres_bool(value: bool) -> (res: Result<u8, ConversionError>)
        ensures
            res == Ok::<u8, ConversionError>(if value { 1 } else { 0 }),
    {
        Ok(if value { 1 } else { 0 })
    }

    fn from_postgres_i16(value: i16) -> (res: Result<u8, ConversionError>)
        ensures
            match res {
                Ok(r) => 0 <= value <= u8::MAX && r == value,
                Err(e) => !(0 <= value <= u8::MAX) && e == ConversionError::OutOfRange,
            },
    {
        if (0 as i128) <= (value as i128) && (value as i128) <= (u8::MAX as i128) {
            Ok(value as u8)
        } else {
            Err(ConversionError::OutOfRange)
        }
    }

    fn from_postgres_i32(value: i32) -> (res: Result<u8, ConversionError>)
        ensures
            match res {
                Ok(r) => 0 <= value <= u8::MAX && r == value,
                Err(e) => !(0 <= value <= u8::MAX) && e == ConversionError::OutOfRange,
            },
    {
        if (0 as i128) <= (value as i128) && (value as i128) <= (u8::MAX as i128) {
            Ok(value as u8)
        } else {
            Err(ConversionError::OutOfRange)
        }
    }

    fn from_postgres_i64(value: i64) -> (res: Result<u8, ConversionError>)
        ensures
            match res {
                Ok(r) => 0 <= value <= u8::MAX && r == value,
                Err(e) => !(0 <= value <= u8::MAX) && e == ConversionError::OutOfRange,
            },
    {
        if (0 as i128) <= (value as i128) && (value as i128) <= (u8::MAX as i128) {
            Ok(value as u8)
        } else {
            Err(ConversionError::OutOfRange)
        }
    }

    fn from_postgres_text(value: &str) -> (res: Result<u8, ConversionError>)
        ensures
            match res {
                Ok(r) => parse_bounded(value@, false, 0 as int, u8::MAX as int) == Some(r as int),
                Err(e) => parse_bounded(value@, false, 0 as int, u8::MAX as int) is None
                    && e == ConversionError::InvalidText,
            },
    {
        let cs = chars_of(value);
        match parse_bounded_in(cs.as_slice(), 0, cs.len(), false, 0 as i128, u8::MAX as i128) {
            Some(v) => {
                assert(cs@.subrange(0, cs@.len() as int) == value@);
                Ok(v as u8)
            },
            None => {
                assert(cs@.subrange(0, cs@.len() as int) == value@);
                Err(ConversionError::InvalidText)
            },
        }
    }

    fn from_postgres_bytes(value: &[u8]) -> (res: Result<u8, ConversionError>)
        ensures
            res == Err::<u8, ConversionError>(ConversionError::Unsupported),
    {
        Err(ConversionError::Unsupported)
    }
}

impl FromPostgresValue for u16 {
    fn from_postgres_bool(value: bool) -> (res: Result<u16, ConversionError>)
        ensures
            res == Ok::<u16, ConversionError>(if value { 1 } else { 0 }),
    {
        Ok(if value { 1 } else { 0 })
    }

    fn from_postgres_i16(value: i16) -> (res: Result<u16, ConversionError>)
        ensures
            match res {
                Ok(r) => 0 <= value <= u16::MAX && r == value,
                Err(e) => !(0 <= value <= u16::MAX) && e == ConversionError::OutOfRange,
            },
    {
        if (0 as i128) <= (value as i128) && (value as i128) <= (u16::MAX as i128) {
            Ok(value as u16)
        } else {
            Err(ConversionError::OutOfRange)
        }
    }

    fn from_postgres_i32(value: i32) -> (res: Result<u16, ConversionError>)
        ensures
            match res {
                Ok(r) => 0 <= value <= u16::MAX && r == value,
                Err(e) => !(0 <= value <= u16::MAX) && e == ConversionError::OutOfRange,
            },
    {
        if (0 as i128) <= (value as i128) && (value as i128) <= (u16::MAX as i128) {
            Ok(value as u16)
        } else {
            Err(ConversionError::OutOfRange)
        }
    }

    fn from_postgres_i64(value: i64) -> (res: Result<u16, ConversionError>)
        ensures
            match res {
                Ok(r) => 0 <= value <= u16::MAX && r == value,
                Err(e) => !(0 <= value <= u16::MAX) && e == ConversionError::OutOfRange,
            },
    {
        if (0 as i128) <= (value as i128) && (value as i128) <= (u16::MAX as i128) {
            Ok(value as u16)
        } else {
            Err(ConversionError::OutOfRange)
        }
    }

    fn from_postgres_text(value: &str) -> (res: Result<u16, ConversionError>)
        ensures
            match res {
                Ok(r) => parse_bounded(value@, false, 0 as int, u16::MAX as int) == Some(r as int),
                Err(e) => parse_bounded(value@, false, 0 as int, u16::MAX as int) is None
                    && e == ConversionError::InvalidText,
            },
    {
        let cs = chars_of(value);
        match parse_bounded_in(cs.as_slice(), 0, cs.len(), false, 0 as i128, u16::MAX as i128) {
            Some(v) => {
                assert(cs@.subrange(0, cs@.len() as int) == value@);
                Ok(v as u16)
            },
            None => {
                assert(cs@.subrange(0, cs@.len() as int) == value@);
                Err(ConversionError::InvalidText)
            },
        }
    }

    fn from_postgres_bytes(value: &[u8]) -> (res: Result<u16, ConversionError>)
        ensures
            res == Err::<u16, ConversionError>(ConversionError::Unsupported),
    {
        Err(ConversionError::Unsupported)
    }
}

impl FromPostgresValue for u32 {
    fn from_postgres_bool(value: bool) -> (res: Result<u32, ConversionError>)
        ensures
            res == Ok::<u32, ConversionError>(if value { 1 } else { 0 }),
    {
        Ok(if value { 1 } else { 0 })
    }

    fn from_postgres_i16(value: i16) -> (res: Result<u32, ConversionError>)
        ensures
            match res {
                Ok(r) => 0 <= value <= u32::MAX && r == value,
                Err(e) => !(0 <= value <= u32::MAX) && e == ConversionError::OutOfRange,
            },
    {
        if (0 as i128) <= (value as i128) && (value as i128) <= (u32::MAX as i128) {
            Ok(value as u32)
        } else {
            Err(ConversionError::OutOfRange)
        }
    }

    fn from_postgres_i32(value: i32) -> (res: Result<u32, ConversionError>)
        ensures
            match res {
                Ok(r) => 0 <= value <= u32::MAX && r == value,
                Err(e) => !(0 <= value <= u32::MAX) && e == ConversionError::OutOfRange,
            },
    {
        if (0 as i128) <= (value as i128) && (value as i128) <= (u32::MAX as i128) {
            Ok(value as u32)
        } else {
            Err(ConversionError::OutOfRange)
        }
    }

    fn from_postgres_i64(value: i64) -> (res: Result<u32, ConversionError>)
        ensures
            match res {
                Ok(r) => 0 <= value <= u32::MAX && r == value,
                Err(e) => !(0 <= value <= u32::MAX) && e == ConversionError::OutOfRange,
            },
    {
        if (0 as i128) <= (value as i128) && (value as i128) <= (u32::MAX as i128) {
            Ok(value as u32)
        } else {
            Err(ConversionError::OutOfRange)
        }
    }

    fn from_postgres_text(value: &str) -> (res: Result<u32, ConversionError>)
        ensures
            match res {
                Ok(r) => parse_bounded(value@, false, 0 as int, u32::MAX as int) == Some(r as int),
                Err(e) => parse_bounded(value@, false, 0 as int, u32::MAX as int) is None
                    && e == ConversionError::InvalidText,
            },
    {
        let cs = chars_of(value);
        match parse_bounded_in(cs.as_slice(), 0, cs.len(), false, 0 as i128, u32::MAX as i128) {
            Some(v) => {
                assert(cs@.subrange(0, cs@.len() as int) == value@);
                Ok(v as u32)
            },
            None => {
                assert(cs@.subrange(0, cs@.len() as int) == value@);
                Err(ConversionError::InvalidText)
            },
        }
    }

    fn from_postgres_bytes(value: &[u8]) -> (res: Result<u32, ConversionError>)
        ensures
            res == Err::<u32, ConversionError>(ConversionError::Unsupported),
    {
        Err(ConversionError::Unsupported)
    }
}

impl FromPostgresValue for u64 {
    fn from_postgres_bool(value: bool) -> (res: Result<u64, ConversionError>)
        ensures
            res == Ok::<u64, ConversionError>(if value { 1 } else { 0 }),
    {
        Ok(if value { 1 } else { 0 })
    }

    fn from_postgres_i16(value: i16) -> (res: Result<u64, ConversionError>)
        ensures
            match res {
                Ok(r) => 0 <= value <= u64::MAX && r == value,
                Err(e) => !(0 <= value <= u64::MAX) && e == ConversionError::OutOfRange,
            },
    {
        if (0 as i128) <= (value as i128) && (value as i128) <= (u64::MAX as i128) {
            Ok(value as u64)
        } else {
            Err(ConversionError::OutOfRange)
        }
    }

    fn from_postgres_i32(value: i32) -> (res: Result<u64, ConversionError>)
        ensures
            match res {
                Ok(r) => 0 <= value <= u64::MAX && r == value,
                Err(e) => !(0 <= value <= u64::MAX) && e == ConversionError::OutOfRange,
            },
    {
        if (0 as i128) <= (value as i128) && (value as i128) <= (u64::MAX as i128) {
            Ok(value as u64)
        } else {
            Err(ConversionError::OutOfRange)
        }
    }

    fn from_postgres_i64(value: i64) -> (res: Result<u64, ConversionError>)
        ensures
            match res {
                Ok(r) => 0 <= value <= u64::MAX && r == value,
                Err(e) => !(0 <= value <= u64::MAX) && e == ConversionError::OutOfRange,
            },
    {
        if (0 as i128) <= (value as i128) && (value as i128) <= (u64::MAX as i128) {
            Ok(value as u64)
        } else {
            Err(ConversionError::OutOfRange)
        }
    }

    fn from_postgres_text(value: &str) -> (res: Result<u64, ConversionError>)
        ensures
            match res {
                Ok(r) => parse_bounded(value@, false, 0 as int, u64::MAX as int) == Some(r as int),
                Err(e) => parse_bounded(value@, false, 0 as int, u64::MAX as int) is None
                    && e == ConversionError::InvalidText,
            },
    {
        let cs = chars_of(value);
        match parse_bounded_in(cs.as_slice(), 0, cs.len(), false, 0 as i128, u64::MAX as i128) {
            Some(v) => {
                assert(cs@.subrange(0, cs@.len() as int) == value@);
                Ok(v as u64)
            },
            None => {
                assert(cs@.subrange(0, cs@.len() as int) == value@);
                Err(ConversionError::InvalidText)
            },
        }
    }

    fn from_postgres_bytes(value: &[u8]) -> (res: Result<u64, ConversionError>)
        ensures
            res == Err::<u64, ConversionError>(ConversionError::Unsupported),
    {
        Err(ConversionError::Unsupported)
    }
}

impl FromPostgresValue for usize {
    fn from_postgres_bool(value: bool) -> (res: Result<usize, ConversionError>)
        ensures
            res == Ok::<usize, ConversionError>(if value { 1 } else { 0 }),
    {
        Ok(if value { 1 } else { 0 })
    }

    fn from_postgres_i16(value: i16) -> (res: Result<usize, ConversionError>)
        ensures
            match res {
                Ok(r) => 0 <= value <= usize::MAX && r == value,
                Err(e) => !(0 <= value <= usize::MAX) && e == ConversionError::OutOfRange,
            },
    {
        if (0 as i128) <= (value as i128) && (value as i128) <= (usize::MAX as i128) {
            Ok(value as usize)
        } else {
            Err(ConversionError::OutOfRange)
        }
    }

    fn from_postgres_i32(value: i32) -> (res: Result<usize, ConversionError>)
        ensures
            match res {
                Ok(r) => 0 <= value <= usize::MAX && r == value,
                Err(e) => !(0 <= value <= usize::MAX) && e == ConversionError::OutOfRange,
            },
    {
        if (0 as i128) <= (value as i128) && (value as i128) <= (usize::MAX as i128) {
            Ok(value as usize)
        } else {
            Err(ConversionError::OutOfRange)
        }
    }

    fn from_postgres_i64(value: i64) -> (res: Result<usize, ConversionError>)
        ensures
            match res {
                Ok(r) => 0 <= value <= usize::MAX && r == value,
                Err(e) => !(0 <= value <= usize::MAX) && e == ConversionError::OutOfRange,
            },
    {
        if (0 as i128) <= (value as i128) && (value as i128) <= (usize::MAX as i128) {
            Ok(value as usize)
        } else {
            Err(ConversionError::OutOfRange)
        }
    }

    fn from_postgres_text(value: &str) -> (res: Result<usize, ConversionError>)
        ensures
            match res {
                Ok(r) => parse_bounded(value@, false, 0 as int, usize::MAX as int) == Some(r as int),
                Err(e) => parse_bounded(value@, false, 0 as int, usize::MAX as int) is None
                    && e == ConversionError::InvalidText,
            },
    {
        let cs = chars_of(value);
        match parse_bounded_in(cs.as_slice(), 0, cs.len(), false, 0 as i128, usize::MAX as i128) {
            Some(v) => {
                assert(cs@.subrange(0, cs@.len() as int) == value@);
                Ok(v as usize)
            },
            None => {
                assert(cs@.subrange(0, cs@.len() as int) == value@);
                Err(ConversionError::InvalidText)
            },
        }
    }

    fn from_postgres_bytes(value: &[u8]) -> (res: Result<usize, ConversionError>)
        ensures
            res == Err::<usize, ConversionError>(ConversionError::Unsupported),
    {
        Err(ConversionError::Unsupported)
    }
}

impl FromPostgresValue for bool {
    fn from_postgres_bool(value: bool) -> (res: Result<bool, ConversionError>)
        ensures
            res == Ok::<bool, ConversionError>(value),
    {
        Ok(value)
    }

    fn from_postgres_i16(value: i16) -> (res: Result<bool, ConversionError>)
        ensures
            res == Ok::<bool, ConversionError>(value != 0),
    {
        Ok(value != 0)
    }

    fn from_postgres_i32(value: i32) -> (res: Result<bool, ConversionError>)
        ensures
            res == Ok::<bool, ConversionError>(value != 0),
    {
        Ok(value != 0)
    }

    fn from_postgres_i64(value: i64) -> (res: Result<bool, ConversionError>)
        ensures
            res == Ok::<bool, ConversionError>(value != 0),
    {
        Ok(value != 0)
    }

    fn from_postgres_text(value: &str) -> (res: Result<bool, ConversionError>)
        ensures
            match res {
                Ok(b) => bool_word(value@) == Some(b),
                Err(e) => bool_word(value@) is None && e == ConversionError::InvalidText,
            },
    {
        match parse_bool_word(value) {
            Some(b) => Ok(b),
            None => Err(ConversionError::InvalidText),
        }
    }

    fn from_postgres_bytes(value: &[u8]) -> (res: Result<bool, ConversionError>)
        ensures
            res == Err::<bool, ConversionError>(ConversionError::Unsupported),
    {
        Err(ConversionError::Unsupported)
    }
}

impl FromPostgresValue for String {
    fn from_postgres_bool(value: bool) -> (res: Result<String, ConversionError>)
        ensures
            res matches Ok(s) && s@ == bool_text(value),
    {
        let mut s = String::new();
        if value {
            push_str(&mut s, "true");
        } else {
            push_str(&mut s, "false");
        }
        Ok(s)
    }

    fn from_postgres_i16(value: i16) -> (res: Result<String, ConversionError>)
        ensures
            res matches Ok(s) && s@ == int_text(value as int),
    {
        Ok(int_to_text(value as i64))
    }

    fn from_postgres_i32(value: i32) -> (res: Result<String, ConversionError>)
        ensures
            res matches Ok(s) && s@ == int_text(value as int),
    {
        Ok(int_to_text(value as i64))
    }

    fn from_postgres_i64(value: i64) -> (res: Result<String, ConversionError>)
        ensures
            res matches Ok(s) && s@ == int_text(value as int),
    {
        Ok(int_to_text(value as i64))
    }

    fn from_postgres_text(value: &str) -> (res: Result<String, ConversionError>)
        ensures
            res matches Ok(s) && s@ == value@,
    {
        let mut s = String::new();
        push_str(&mut s, value);
        Ok(s)
    }

    fn from_postgres_bytes(value: &[u8]) -> (res: Result<String, ConversionError>)
        ensures
            match res {
                Ok(s) => valid_utf8(value@) && s@ == decode_utf8(value@),
                Err(e) => !valid_utf8(value@) && e == ConversionError::InvalidUtf8,
            },
    {
        match utf8_text(value) {
            Some(t) => {
                proof {
                    vstd::utf8::encode_utf8_decode_utf8(t@);
                }
                let mut s = String::new();
                push_str(&mut s, t);
                Ok(s)
            },
            None => Err(ConversionError::InvalidUtf8),
        }
    }
}

impl FromPostgresValue for Vec<u8> {
    fn from_postgres_bool(value: bool) -> (res: Result<Vec<u8>, ConversionError>)
        ensures
            res matches Err(e) && e == ConversionError::Unsupported,
    {
        Err(ConversionError::Unsupported)
    }

    fn from_postgres_i16(value: i16) -> (res: Result<Vec<u8>, ConversionError>)
        ensures
            res matches Ok(b) && b@ == le_bytes(twos_complement(value as int, 0x1_0000), 2),
    {
        let bits: u64 = (value as u16) as u64;
        assert(bits as int == if value < 0 { value as int + 0x1_0000 } else { value as int }) by (bit_vector)
            requires
                bits == (value as u16) as u64,
        ;
        Ok(le_bytes_of(bits, 2))
    }

    fn from_postgres_i32(value: i32) -> (res: Result<Vec<u8>, ConversionError>)
        ensures
            res matches Ok(b) && b@ == le_bytes(twos_complement(value as int, 0x1_0000_0000), 4),
    {
        let bits: u64 = (value as u32) as u64;
        assert(bits as int == if value < 0 { value as int + 0x1_0000_0000 } else { value as int }) by (bit_vector)
            requires
                bits == (value as u32) as u64,
        ;
        Ok(le_bytes_of(bits, 4))
    }

    fn from_postgres_i64(value: i64) -> (res: Result<Vec<u8>, ConversionError>)
        ensures
            res matches Ok(b) && b@ == le_bytes(twos_complement(value as int, 0x1_0000_0000_0000_0000), 8),
    {
        let bits: u64 = (value as u64) as u64;
        assert(bits as int == if value < 0 { value as int + 0x1_0000_0000_0000_0000 } else { value as int }) by (bit_vector)
            requires
                bits == (value as u64) as u64,
        ;
        Ok(le_bytes_of(bits, 8))
    }

    fn from_postgres_text(value: &str) -> (res: Result<Vec<u8>, ConversionError>)
        ensures
            res matches Ok(b) && b@ == encode_utf8(value@),
    {
        Ok(value.as_bytes_vec())
    }

    fn from_postgres_bytes(value: &[u8]) -> (res: Result<Vec<u8>, ConversionError>)
        ensures
            res matches Ok(b) && b@ == value@,
    {
        Ok(copy_bytes_vec(value))
    }
}

impl FromPostgresValue for [u8; 6] {
    fn from_postgres_bool(value: bool) -> (res: Result<[u8; 6], ConversionError>)
        ensures
            res matches Err(e) && e == ConversionError::Unsupported,
    {
        Err(ConversionError::Unsupported)
    }

    fn from_postgres_i16(value: i16) -> (res: Result<[u8; 6], ConversionError>)
        ensures
            res matches Err(e) && e == ConversionError::Unsupported,
    {
        Err(ConversionError::Unsupported)
    }

    fn from_postgres_i32(value: i32) -> (res: Result<[u8; 6], ConversionError>)
        ensures
            res matches Err(e) && e == ConversionError::Unsupported,
    {
        Err(ConversionError::Unsupported)
    }

    fn from_postgres_i64(value: i64) -> (res: Result<[u8; 6], ConversionError>)
        ensures
            res matches Err(e) && e == ConversionError::Unsupported,
    {
        Err(ConversionError::Unsupported)
    }

    fn from_postgres_text(value: &str) -> (res: Result<[u8; 6], ConversionError>)
        ensures
            res matches Err(e) && e == ConversionError::Unsupported,
    {
        Err(ConversionError::Unsupported)
    }

    fn from_postgres_bytes(value: &[u8]) -> (res: Result<[u8; 6], ConversionError>)
        ensures
            res matches Err(e) && e == ConversionError::Unsupported,
    {
        Err(ConversionError::Unsupported)
    }

    fn from_postgres_macaddr(value: [u8; 6]) -> (res: Result<[u8; 6], ConversionError>)
        ensures
            res matches Ok(v) && v == value,
    {
        Ok(value)
    }
}

impl FromPostgresValue for [u8; 8] {
    fn from_postgres_bool(value: bool) -> (res: Result<[u8; 8], ConversionError>)
        ensures
            res matches Err(e) && e == ConversionError::Unsupported,
    {
        Err(ConversionError::Unsupported)
    }

    fn from_postgres_i16(value: i16) -> (res: Result<[u8; 8], ConversionError>)
        ensures
            res matches Err(e) && e == ConversionError::Unsupported,
    {
        Err(ConversionError::Unsupported)
    }

    fn from_postgres_i32(value: i32) -> (res: Result<[u8; 8], ConversionError>)
        ensures
            res matches Err(e) && e == ConversionError::Unsupported,
    {
        Err(ConversionError::Unsupported)
    }

    fn from_postgres_i64(value: i64) -> (res: Result<[u8; 8], ConversionError>)
        ensures
            res matches Err(e) && e == ConversionError::Unsupported,
    {
        Err(ConversionError::Unsupported)
    }

    fn from_postgres_text(value: &str) -> (res: Result<[u8; 8], ConversionError>)
        ensures
            res matches Err(e) && e == ConversionError::Unsupported,
    {
        Err(ConversionError::Unsupported)
    }

    fn from_postgres_bytes(value: &[u8]) -> (res: Result<[u8; 8], ConversionError>)
        ensures
            res matches Err(e) && e == ConversionError::Unsupported,
    {
        Err(ConversionError::Unsupported)
    }

    fn from_postgres_macaddr8(value: [u8; 8]) -> (res: Result<[u8; 8], ConversionError>)
        ensures
            res matches Ok(v) && v == value,
    {
        Ok(value)
    }
}

impl FromPostgresValue for BitVec {
    fn from_postgres_bool(value: bool) -> (res: Result<BitVec, ConversionError>)
        ensures
            res matches Err(e) && e == ConversionError::Unsupported,
    {
        Err(ConversionError::Unsupported)
    }

    fn from_postgres_i16(value: i16) -> (res: Result<BitVec, ConversionError>)
        ensures
            res matches Err(e) && e == ConversionError::Unsupported,
    {
        Err(ConversionError::Unsupported)
    }

    fn from_postgres_i32(value: i32) -> (res: Result<BitVec, ConversionError>)
        ensures
            res matches Err(e) && e == ConversionError::Unsupported,
    {
        Err(ConversionError::Unsupported)
    }

    fn from_postgres_i64(value: i64) -> (res: Result<BitVec, ConversionError>)
        ensures
            res matches Err(e) && e == ConversionError::Unsupported,
    {
        Err(ConversionError::Unsupported)
    }

    fn from_postgres_text(value: &str) -> (res: Result<BitVec, ConversionError>)
        ensures
            res matches Err(e) && e == ConversionError::Unsupported,
    {
        Err(ConversionError::Unsupported)
    }

    fn from_postgres_bytes(value: &[u8]) -> (res: Result<BitVec, ConversionError>)
        ensures
            res matches Err(e) && e == ConversionError::Unsupported,
    {
        Err(ConversionError::Unsupported)
    }

    fn from_postgres_bitvec(value: BitVec) -> (res: Result<BitVec, ConversionError>)
        ensures
            res matches Ok(v) && v == value,
    {
        Ok(value)
    }
}

/// Reads the variant of the PostgreSQL enum `T` that UTF-8 `bytes` name:
/// how a `PostgresEnum` type reads a `BYTEA` or raw text value.
/// Invalid UTF-8 is refused before `try_from_str` sees it.
pub fn enum_from_postgres_bytes<T: PostgresEnum>(value: &[u8]) -> (res: Result<T, ConversionError>)
    ensures
        valid_utf8(value@) ==> exists|s: &str|
            s@ == decode_utf8(value@) && call_ensures(T::try_from_str, (s,), res),
        !valid_utf8(value@) ==> res == Err::<T, ConversionError>(ConversionError::InvalidUtf8),
{
    match utf8_text(value) {
        Some(s) => {
            proof {
                vstd::utf8::encode_utf8_decode_utf8(s@);
            }
            T::try_from_str(s)
        },
        None => Err(ConversionError::InvalidUtf8),
    }
}

impl FromPostgresValue for Vec<PostgresValue> {
    fn from_postgres_bool(value: bool) -> (res: Result<Vec<PostgresValue>, ConversionError>)
        ensures
            res matches Err(e) && e == ConversionError::Unsupported,
    {
        Err(ConversionError::Unsupported)
    }

    fn from_postgres_i16(value: i16) -> (res: Result<Vec<PostgresValue>, ConversionError>)
        ensures
            res matches Err(e) && e == ConversionError::Unsupported,
    {
        Err(ConversionError::Unsupported)
    }

    fn from_postgres_i32(value: i32) -> (res: Result<Vec<PostgresValue>, ConversionError>)
        ensures
            res matches Err(e) && e == ConversionError::Unsupported,
    {
        Err(ConversionError::Unsupported)
    }

    fn from_postgres_i64(value: i64) -> (res: Result<Vec<PostgresValue>, ConversionError>)
        ensures
            res matches Err(e) && e == ConversionError::Unsupported,
    {
        Err(ConversionError::Unsupported)
    }

    fn from_postgres_text(value: &str) -> (res: Result<Vec<PostgresValue>, ConversionError>)
        ensures
            res matches Err(e) && e == ConversionError::Unsupported,
    {
        Err(ConversionError::Unsupported)
    }

    fn from_postgres_bytes(value: &[u8]) -> (res: Result<Vec<PostgresValue>, ConversionError>)
        ensures
            res matches Err(e) && e == ConversionError::Unsupported,
    {
        Err(ConversionError::Unsupported)
    }

    fn from_postgres_array(value: Vec<PostgresValue>) -> (res: Result<Vec<PostgresValue>, ConversionError>)
        ensures
            res matches Ok(v) && v@ == value@,
    {
        Ok(value)
    }
}

/// A conversion's result with its value wrapped in `Some`.
pub open spec fn some_of<T>(r: Result<T, ConversionError>) -> Result<Option<T>, ConversionError> {
    match r {
        Ok(v) => Ok(Some(v)),
        Err(e) => Err(e),
    }
}

/// Wraps a conversion's value in `Some`.
fn lift_some<T>(r: Result<T, ConversionError>) -> (res: Result<Option<T>, ConversionError>)
    ensures
        res == some_of(r),
{
    match r {
        Ok(v) => Ok(Some(v)),
        Err(e) => Err(e),
    }
}

impl<T: FromPostgresValue> FromPostgresValue for Option<T> {
    fn from_postgres_bool(value: bool) -> (res: Result<Option<T>, ConversionError>)
        ensures
            exists|r: Result<T, ConversionError>|
                call_ensures(T::from_postgres_bool, (value,), r) && res == some_of(r),
    {
        lift_some(T::from_postgres_bool(value))
    }

    fn from_postgres_i16(value: i16) -> (res: Result<Option<T>, ConversionError>)
        ensures
            exists|r: Result<T, ConversionError>|
                call_ensures(T::from_postgres_i16, (value,), r) && res == some_of(r),
    {
        lift_some(T::from_postgres_i16(value))
    }

    fn from_postgres_i32(value: i32) -> (res: Result<Option<T>, ConversionError>)
        ensures
            exists|r: Result<T, ConversionError>|
                call_ensures(T::from_postgres_i32, (value,), r) && res == some_of(r),
    {
        lift_some(T::from_postgres_i32(value))
    }

    fn from_postgres_i64(value: i64) -> (res: Result<Option<T>, ConversionError>)
        ensures
            exists|r: Result<T, ConversionError>|
                call_ensures(T::from_postgres_i64, (value,), r) && res == some_of(r),
    {
        lift_some(T::from_postgres_i64(value))
    }

    fn from_postgres_text(value: &str) -> (res: Result<Option<T>, ConversionError>)
        ensures
            exists|r: Result<T, ConversionError>|
                call_ensures(T::from_postgres_text, (value,), r) && res == some_of(r),
    {
        lift_some(T::from_postgres_text(value))
    }

    fn from_postgres_bytes(value: &[u8]) -> (res: Result<Option<T>, ConversionError>)
        ensures
            exists|r: Result<T, ConversionError>|
                call_ensures(T::from_postgres_bytes, (value,), r) && res == some_of(r),
    {
        lift_some(T::from_postgres_bytes(value))
    }

    fn from_postgres_uuid(value: [u8; 16]) -> (res: Result<Option<T>, ConversionError>)
        ensures
            exists|r: Result<T, ConversionError>|
                call_ensures(T::from_postgres_uuid, (value,), r) && res == some_of(r),
    {
        lift_some(T::from_postgres_uuid(value))
    }

    fn from_postgres_json(value: String) -> (res: Result<Option<T>, ConversionError>)
        ensures
            exists|r: Result<T, ConversionError>|
                call_ensures(T::from_postgres_json, (value,), r) && res == some_of(r),
    {
        lift_some(T::from_postgres_json(value))
    }

    fn from_postgres_jsonb(value: String) -> (res: Result<Option<T>, ConversionError>)
        ensures
            exists|r: Result<T, ConversionError>|
                call_ensures(T::from_postgres_jsonb, (value,), r) && res == some_of(r),
    {
        lift_some(T::from_postgres_jsonb(value))
    }

    fn from_postgres_macaddr(value: [u8; 6]) -> (res: Result<Option<T>, ConversionError>)
        ensures
            exists|r: Result<T, ConversionError>|
                call_ensures(T::from_postgres_macaddr, (value,), r) && res == some_of(r),
    {
        lift_some(T::from_postgres_macaddr(value))
    }

    fn from_postgres_macaddr8(value: [u8; 8]) -> (res: Result<Option<T>, ConversionError>)
        ensures
            exists|r: Result<T, ConversionError>|
                call_ensures(T::from_postgres_macaddr8, (value,), r) && res == some_of(r),
    {
        lift_some(T::from_postgres_macaddr8(value))
    }

    fn from_postgres_bitvec(value: BitVec) -> (res: Result<Option<T>, ConversionError>)
        ensures
            exists|r: Result<T, ConversionError>|
                call_ensures(T::from_postgres_bitvec, (value,), r) && res == some_of(r),
    {
        lift_some(T::from_postgres_bitvec(value))
    }

    fn from_postgres_array(value: Vec<PostgresValue>) -> (res: Result<Option<T>, ConversionError>)
        ensures
            exists|r: Result<T, ConversionError>|
                call_ensures(T::from_postgres_array, (value,), r) && res == some_of(r),
    {
        lift_some(T::from_postgres_array(value))
    }

    fn from_postgres_null() -> (res: Result<Option<T>, ConversionError>)
        ensures
            res matches Ok(None),
    {
        Ok(None)
    }
}

impl From<i8> for PostgresValue {
    fn from(value: i8) -> (res: PostgresValue) {
        PostgresValue::Smallint(value as i16)
    }
}

impl vstd::std_specs::convert::FromSpecImpl<i8> for PostgresValue {
    open spec fn obeys_from_spec() -> bool {
        true
    }

    open spec fn from_spec(value: i8) -> PostgresValue {
        PostgresValue::Smallint(value as i16)
    }
}

impl From<i16> for PostgresValue {
    fn from(value: i16) -> (res: PostgresValue) {
        PostgresValue::Smallint(value)
    }
}

impl vstd::std_specs::convert::FromSpecImpl<i16> for PostgresValue {
    open spec fn obeys_from_spec() -> bool {
        true
    }

    open spec fn from_spec(value: i16) -> PostgresValue {
        PostgresValue::Smallint(value)
    }
}

impl From<i32> for PostgresValue {
    fn from(value: i32) -> (res: PostgresValue) {
        PostgresValue::Integer(value)
    }
}

impl vstd::std_specs::convert::FromSpecImpl<i32> for PostgresValue {
    open spec fn obeys_from_spec() -> bool {
        true
    }

    open spec fn from_spec(value: i32) -> PostgresValue {
        PostgresValue::Integer(value)
    }
}

impl From<i64> for PostgresValue {
    fn from(value: i64) -> (res: PostgresValue) {
        PostgresValue::Bigint(value)
    }
}

impl vstd::std_specs::convert::FromSpecImpl<i64> for PostgresValue {
    open spec fn obeys_from_spec() -> bool {
        true
    }

    open spec fn from_spec(value: i64) -> PostgresValue {
        PostgresValue::Bigint(value)
    }
}

impl From<u8> for PostgresValue {
    fn from(value: u8) -> (res: PostgresValue) {
        PostgresValue::Smallint(value as i16)
    }
}

impl vstd::std_specs::convert::FromSpecImpl<u8> for PostgresValue {
    open spec fn obeys_from_spec() -> bool {
        true
    }

    open spec fn from_spec(value: u8) -> PostgresValue {
        PostgresValue::Smallint(value as i16)
    }
}

impl From<u16> for PostgresValue {
    fn from(value: u16) -> (res: PostgresValue) {
        PostgresValue::Integer(value as i32)
    }
}

impl vstd::std_specs::convert::FromSpecImpl<u16> for PostgresValue {
    open spec fn obeys_from_spec() -> bool {
        true
    }

    open spec fn from_spec(value: u16) -> PostgresValue {
        PostgresValue::Integer(value as i32)
    }
}

impl From<u32> for PostgresValue {
    fn from(value: u32) -> (res: PostgresValue) {
        PostgresValue::Bigint(value as i64)
    }
}

impl vstd::std_specs::convert::FromSpecImpl<u32> for PostgresValue {
    open spec fn obeys_from_spec() -> bool {
        true
    }

    open spec fn from_spec(value: u32) -> PostgresValue {
        PostgresValue::Bigint(value as i64)
    }
}

impl From<u64> for PostgresValue {
    fn from(value: u64) -> (res: PostgresValue) {
        PostgresValue::Bigint(if value <= 0x7fff_ffff_ffff_ffff { value as i64 } else { i64::MAX })
    }
}

impl vstd::std_specs::convert::FromSpecImpl<u64> for PostgresValue {
    open spec fn obeys_from_spec() -> bool {
        true
    }

    open spec fn from_spec(value: u64) -> PostgresValue {
        PostgresValue::Bigint(if value <= 0x7fff_ffff_ffff_ffff { value as i64 } else { i64::MAX })
    }
}

impl From<isize> for PostgresValue {
    fn from(value: isize) -> (res: PostgresValue) {
        PostgresValue::Bigint(value as i64)
    }
}

impl vstd::std_specs::convert::FromSpecImpl<isize> for PostgresValue {
    open spec fn obeys_from_spec() -> bool {
        true
    }

    open spec fn from_spec(value: isize) -> PostgresValue {
        PostgresValue::Bigint(value as i64)
    }
}

impl From<usize> for PostgresValue {
    fn from(value: usize) -> (res: PostgresValue) {
        PostgresValue::Bigint(if (value as u64) <= 0x7fff_ffff_ffff_ffff { value as i64 } else { i64::MAX })
    }
}

impl vstd::std_specs::convert::FromSpecImpl<usize> for PostgresValue {
    open spec fn obeys_from_spec() -> bool {
        true
    }

    open spec fn from_spec(value: usize) -> PostgresValue {
        PostgresValue::Bigint(if (value as u64) <= 0x7fff_ffff_ffff_ffff { value as i64 } else { i64::MAX })
    }
}

impl From<bool> for PostgresValue {
    fn from(value: bool) -> (res: PostgresValue) {
        PostgresValue::Boolean(value)
    }
}

impl vstd::std_specs::convert::FromSpecImpl<bool> for PostgresValue {
    open spec fn obeys_from_spec() -> bool {
        true
    }

    open spec fn from_spec(value: bool) -> PostgresValue {
        PostgresValue::Boolean(value)
    }
}

impl From<String> for PostgresValue {
    fn from(value: String) -> (res: PostgresValue) {
        PostgresValue::Text(value)
    }
}

impl vstd::std_specs::convert::FromSpecImpl<String> for PostgresValue {
    open spec fn obeys_from_spec() -> bool {
        true
    }

    open spec fn from_spec(value: String) -> PostgresValue {
        PostgresValue::Text(value)
    }
}

impl From<Vec<u8>> for PostgresValue {
    fn from(value: Vec<u8>) -> (res: PostgresValue) {
        PostgresValue::Bytea(value)
    }
}

impl vstd::std_specs::convert::FromSpecImpl<Vec<u8>> for PostgresValue {
    open spec fn obeys_from_spec() -> bool {
        true
    }

    open spec fn from_spec(value: Vec<u8>) -> PostgresValue {
        PostgresValue::Bytea(value)
    }
}

impl From<[u8; 6]> for PostgresValue {
    fn from(value: [u8; 6]) -> (res: PostgresValue) {
        PostgresValue::MacAddr(value)
    }
}

impl vstd::std_specs::convert::FromSpecImpl<[u8; 6]> for PostgresValue {
    open spec fn obeys_from_spec() -> bool {
        true
    }

    open spec fn from_spec(value: [u8; 6]) -> PostgresValue {
        PostgresValue::MacAddr(value)
    }
}

impl From<[u8; 8]> for PostgresValue {
    fn from(value: [u8; 8]) -> (res: PostgresValue) {
        PostgresValue::MacAddr8(value)
    }
}

impl vstd::std_specs::convert::FromSpecImpl<[u8; 8]> for PostgresValue {
    open spec fn obeys_from_spec() -> bool {
        true
    }

    open spec fn from_spec(value: [u8; 8]) -> PostgresValue {
        PostgresValue::MacAddr8(value)
    }
}

impl From<BitVec> for PostgresValue {
    fn from(value: BitVec) -> (res: PostgresValue) {
        PostgresValue::BitVec(value)
    }
}

impl vstd::std_specs::convert::FromSpecImpl<BitVec> for PostgresValue {
    open spec fn obeys_from_spec() -> bool {
        true
    }

    open spec fn from_spec(value: BitVec) -> PostgresValue {
        PostgresValue::BitVec(value)
    }
}

impl From<Vec<PostgresValue>> for PostgresValue {
    fn from(value: Vec<PostgresValue>) -> (res: PostgresValue) {
        PostgresValue::Array(value)
    }
}

impl vstd::std_specs::convert::FromSpecImpl<Vec<PostgresValue>> for PostgresValue {
    open spec fn obeys_from_spec() -> bool {
        true
    }

    open spec fn from_spec(value: Vec<PostgresValue>) -> PostgresValue {
        PostgresValue::Array(value)
    }
}


/// What `uuid::Uuid::parse_str` gives for `text`: the sixteen bytes of the
/// UUID that `text` spells, or `None` when `text` spells none.
pub uninterp spec fn uuid_parse(text: Seq<char>) -> Option<Seq<u8>>;

/// The bytes of an optional byte array, as a sequence.
pub open spec fn opt_uuid_bytes(o: Option<[u8; 16]>) -> Option<Seq<u8>> {
    match o {
        Some(b) => Some(b@),
        None => None,
    }
}

/// `uuid::Uuid::parse_str(text)`, as its sixteen bytes; `None` where the
/// crate reports an error.
///
/// Claims: the result depends on `text` alone (it is named `uuid_parse`),
/// and the hyphenated lower-case form of sixteen bytes (the form that
/// `Uuid`'s `Display` writes) reads back as those bytes. Which other
/// spellings the crate accepts is not stated.
#[verifier::external_body]
pub(crate) fn parse_uuid(text: &str) -> (res: Option<[u8; 16]>)
    ensures
        opt_uuid_bytes(res) == uuid_parse(text@),
        forall|b: Seq<u8>|
            #![trigger uuid_text(b)]
            b.len() == 16 && text@ == uuid_text(b) ==> opt_uuid_bytes(res) == Some(b),
{
    match uuid::Uuid::parse_str(text) {
        Ok(u) => Some(u.into_bytes()),
        Err(_) => None,
    }
}

/// The `i16` of any integer value that fits.
pub open spec fn value_as_i16(value: PostgresValue) -> Result<i16, ConversionError> {
    match value {
        PostgresValue::Smallint(i) => Ok(i),
        PostgresValue::Integer(i) => if i16::MIN <= i <= i16::MAX {
            Ok(i as i16)
        } else {
            Err(ConversionError::OutOfRange)
        },
        PostgresValue::Bigint(i) => if i16::MIN <= i <= i16::MAX {
            Ok(i as i16)
        } else {
            Err(ConversionError::OutOfRange)
        },
        _ => Err(ConversionError::Unsupported),
    }
}

impl TryFrom<PostgresValue> for i16 {
    type Error = ConversionError;

    fn try_from(value: PostgresValue) -> (res: Result<i16, ConversionError>) {
        match value {
            PostgresValue::Smallint(i) => Ok(i),
            PostgresValue::Integer(i) => <i16 as FromPostgresValue>::from_postgres_i32(i),
            PostgresValue::Bigint(i) => <i16 as FromPostgresValue>::from_postgres_i64(i),
            _ => Err(ConversionError::Unsupported),
        }
    }
}

impl vstd::std_specs::convert::TryFromSpecImpl<PostgresValue> for i16 {
    open spec fn obeys_try_from_spec() -> bool {
        true
    }

    open spec fn try_from_spec(value: PostgresValue) -> Result<i16, ConversionError> {
        value_as_i16(value)
    }
}

/// The `i32` of any integer value that fits.
pub open spec fn value_as_i32(value: PostgresValue) -> Result<i32, ConversionError> {
    match value {
        PostgresValue::Smallint(i) => Ok(i as i32),
        PostgresValue::Integer(i) => Ok(i),
        PostgresValue::Bigint(i) => if i32::MIN <= i <= i32::MAX {
            Ok(i as i32)
        } else {
            Err(ConversionError::OutOfRange)
        },
        _ => Err(ConversionError::Unsupported),
    }
}

impl TryFrom<PostgresValue> for i32 {
    type Error = ConversionError;

    fn try_from(value: PostgresValue) -> (res: Result<i32, ConversionError>) {
        match value {
            PostgresValue::Smallint(i) => Ok(i as i32),
            PostgresValue::Integer(i) => Ok(i),
            PostgresValue::Bigint(i) => <i32 as FromPostgresValue>::from_postgres_i64(i),
            _ => Err(ConversionError::Unsupported),
        }
    }
}

impl vstd::std_specs::convert::TryFromSpecImpl<PostgresValue> for i32 {
    open spec fn obeys_try_from_spec() -> bool {
        true
    }

    open spec fn try_from_spec(value: PostgresValue) -> Result<i32, ConversionError> {
        value_as_i32(value)
    }
}

/// The `i64` of any integer value.
pub open spec fn value_as_i64(value: PostgresValue) -> Result<i64, ConversionError> {
    match value {
        PostgresValue::Smallint(i) => Ok(i as i64),
        PostgresValue::Integer(i) => Ok(i as i64),
        PostgresValue::Bigint(i) => Ok(i),
        _ => Err(ConversionError::Unsupported),
    }
}

impl TryFrom<PostgresValue> for i64 {
    type Error = ConversionError;

    fn try_from(value: PostgresValue) -> (res: Result<i64, ConversionError>) {
        match value {
            PostgresValue::Smallint(i) => Ok(i as i64),
            PostgresValue::Integer(i) => Ok(i as i64),
            PostgresValue::Bigint(i) => Ok(i),
            _ => Err(ConversionError::Unsupported),
        }
    }
}

impl vstd::std_specs::convert::TryFromSpecImpl<PostgresValue> for i64 {
    open spec fn obeys_try_from_spec() -> bool {
        true
    }

    open spec fn try_from_spec(value: PostgresValue) -> Result<i64, ConversionError> {
        value_as_i64(value)
    }
}

/// The value held by a `BOOLEAN` only.
pub open spec fn value_as_bool(value: PostgresValue) -> Result<bool, ConversionError> {
    match value {
        PostgresValue::Boolean(b) => Ok(b),
        _ => Err(ConversionError::Unsupported),
    }
}

impl TryFrom<PostgresValue> for bool {
    type Error = ConversionError;

    fn try_from(value: PostgresValue) -> (res: Result<bool, ConversionError>) {
        match value {
            PostgresValue::Boolean(b) => Ok(b),
            _ => Err(ConversionError::Unsupported),
        }
    }
}

impl vstd::std_specs::convert::TryFromSpecImpl<PostgresValue> for bool {
    open spec fn obeys_try_from_spec() -> bool {
        true
    }

    open spec fn try_from_spec(value: PostgresValue) -> Result<bool, ConversionError> {
        value_as_bool(value)
    }
}

/// The value held by text only.
pub open spec fn value_as_string(value: PostgresValue) -> Result<String, ConversionError> {
    match value {
        PostgresValue::Text(s) => Ok(s),
        _ => Err(ConversionError::Unsupported),
    }
}

impl TryFrom<PostgresValue> for String {
    type Error = ConversionError;

    fn try_from(value: PostgresValue) -> (res: Result<String, ConversionError>) {
        match value {
            PostgresValue::Text(s) => Ok(s),
            _ => Err(ConversionError::Unsupported),
        }
    }
}

impl vstd::std_specs::convert::TryFromSpecImpl<PostgresValue> for String {
    open spec fn obeys_try_from_spec() -> bool {
        true
    }

    open spec fn try_from_spec(value: PostgresValue) -> Result<String, ConversionError> {
        value_as_string(value)
    }
}

/// The value held by a `BYTEA` only.
pub open spec fn value_as_bytes(value: PostgresValue) -> Result<Vec<u8>, ConversionError> {
    match value {
        PostgresValue::Bytea(b) => Ok(b),
        _ => Err(ConversionError::Unsupported),
    }
}

impl TryFrom<PostgresValue> for Vec<u8> {
    type Error = ConversionError;

    fn try_from(value: PostgresValue) -> (res: Result<Vec<u8>, ConversionError>) {
        match value {
            PostgresValue::Bytea(b) => Ok(b),
            _ => Err(ConversionError::Unsupported),
        }
    }
}

impl vstd::std_specs::convert::TryFromSpecImpl<PostgresValue> for Vec<u8> {
    open spec fn obeys_try_from_spec() -> bool {
        true
    }

    open spec fn try_from_spec(value: PostgresValue) -> Result<Vec<u8>, ConversionError> {
        value_as_bytes(value)
    }
}

/// The value held by a `MACADDR` only.
pub open spec fn value_as_macaddr(value: PostgresValue) -> Result<[u8; 6], ConversionError> {
    match value {
        PostgresValue::MacAddr(m) => Ok(m),
        _ => Err(ConversionError::Unsupported),
    }
}

impl TryFrom<PostgresValue> for [u8; 6] {
    type Error = ConversionError;

    fn try_from(value: PostgresValue) -> (res: Result<[u8; 6], ConversionError>) {
        match value {
            PostgresValue::MacAddr(m) => Ok(m),
            _ => Err(ConversionError::Unsupported),
        }
    }
}

impl vstd::std_specs::convert::TryFromSpecImpl<PostgresValue> for [u8; 6] {
    open spec fn obeys_try_from_spec() -> bool {
        true
    }

    open spec fn try_from_spec(value: PostgresValue) -> Result<[u8; 6], ConversionError> {
        value_as_macaddr(value)
    }
}

/// The value held by a `MACADDR8` only.
pub open spec fn value_as_macaddr8(value: PostgresValue) -> Result<[u8; 8], ConversionError> {
    match value {
        PostgresValue::MacAddr8(m) => Ok(m),
        _ => Err(ConversionError::Unsupported),
    }
}

impl TryFrom<PostgresValue> for [u8; 8] {
    type Error = ConversionError;

    fn try_from(value: PostgresValue) -> (res: Result<[u8; 8], ConversionError>) {
        match value {
            PostgresValue::MacAddr8(m) => Ok(m),
            _ => Err(ConversionError::Unsupported),
        }
    }
}

impl vstd::std_specs::convert::TryFromSpecImpl<PostgresValue> for [u8; 8] {
    open spec fn obeys_try_from_spec() -> bool {
        true
    }

    open spec fn try_from_spec(value: PostgresValue) -> Result<[u8; 8], ConversionError> {
        value_as_macaddr8(value)
    }
}

/// The value held by a bit string only.
pub open spec fn value_as_bitvec(value: PostgresValue) -> Result<BitVec, ConversionError> {
    match value {
        PostgresValue::BitVec(b) => Ok(b),
        _ => Err(ConversionError::Unsupported),
    }
}

impl TryFrom<PostgresValue> for BitVec {
    type Error = ConversionError;

    fn try_from(value: PostgresValue) -> (res: Result<BitVec, ConversionError>) {
        match value {
            PostgresValue::BitVec(b) => Ok(b),
            _ => Err(ConversionError::Unsupported),
        }
    }
}

impl vstd::std_specs::convert::TryFromSpecImpl<PostgresValue> for BitVec {
    open spec fn obeys_try_from_spec() -> bool {
        true
    }

    open spec fn try_from_spec(value: PostgresValue) -> Result<BitVec, ConversionError> {
        value_as_bitvec(value)
    }
}

/// The value held by the elements of an `ARRAY` only.
pub open spec fn value_as_array(value: PostgresValue) -> Result<Vec<PostgresValue>, ConversionError> {
    match value {
        PostgresValue::Array(items) => Ok(items),
        _ => Err(ConversionError::Unsupported),
    }
}

impl TryFrom<PostgresValue> for Vec<PostgresValue> {
    type Error = ConversionError;

    fn try_from(value: PostgresValue) -> (res: Result<Vec<PostgresValue>, ConversionError>) {
        match value {
            PostgresValue::Array(items) => Ok(items),
            _ => Err(ConversionError::Unsupported),
        }
    }
}

impl vstd::std_specs::convert::TryFromSpecImpl<PostgresValue> for Vec<PostgresValue> {
    open spec fn obeys_try_from_spec() -> bool {
        true
    }

    open spec fn try_from_spec(value: PostgresValue) -> Result<Vec<PostgresValue>, ConversionError> {
        value_as_array(value)
    }
}

/// The bytes of a UUID that a value holds: a `UUID`, or text that spells one.
pub open spec fn value_as_uuid(value: PostgresValue) -> Result<Seq<u8>, ConversionError> {
    match value {
        PostgresValue::Uuid(u) => Ok(u@),
        PostgresValue::Text(s) => match uuid_parse(s@) {
            Some(b) => Ok(b),
            None => Err(ConversionError::InvalidText),
        },
        _ => Err(ConversionError::Unsupported),
    }
}

/// Whether `res` is a result that the method of `T` for values of `v`'s
/// kind can give for `v`'s payload: what `PostgresValue::convert` returns.
pub open spec fn conversion_of<T: FromPostgresValue>(
    v: PostgresValue,
    res: Result<T, ConversionError>,
) -> bool {
    match v {
        PostgresValue::Boolean(x) => call_ensures(T::from_postgres_bool, (x,), res),
        PostgresValue::Smallint(x) => call_ensures(T::from_postgres_i16, (x,), res),
        PostgresValue::Integer(x) => call_ensures(T::from_postgres_i32, (x,), res),
        PostgresValue::Bigint(x) => call_ensures(T::from_postgres_i64, (x,), res),
        PostgresValue::Text(x) => exists|s: &str|
            s@ == x@ && call_ensures(T::from_postgres_text, (s,), res),
        PostgresValue::Bytea(x) => exists|b: &[u8]|
            b@ == x@ && call_ensures(T::from_postgres_bytes, (b,), res),
        PostgresValue::Uuid(x) => call_ensures(T::from_postgres_uuid, (x,), res),
        PostgresValue::Json(x) => call_ensures(T::from_postgres_json, (x,), res),
        PostgresValue::Jsonb(x) => call_ensures(T::from_postgres_jsonb, (x,), res),
        PostgresValue::Enum(x) => exists|s: &str|
            s@ == x@ && call_ensures(T::from_postgres_text, (s,), res),
        PostgresValue::MacAddr(x) => call_ensures(T::from_postgres_macaddr, (x,), res),
        PostgresValue::MacAddr8(x) => call_ensures(T::from_postgres_macaddr8, (x,), res),
        PostgresValue::BitVec(x) => call_ensures(T::from_postgres_bitvec, (x,), res),
        PostgresValue::Array(x) => call_ensures(T::from_postgres_array, (x,), res),
        PostgresValue::Null => call_ensures(T::from_postgres_null, (), res),
    }
}

impl PostgresValue {
    /// Converts this value into a `T`, by the method of `FromPostgresValue`
    /// that takes values of its kind: an enum value goes as its variant
    /// name to `from_postgres_text`, `NULL` to `from_postgres_null`.
    pub fn convert<T: FromPostgresValue>(self) -> (res: Result<T, ConversionError>)
        ensures
            conversion_of(self, res),
    {
        match self {
            PostgresValue::Boolean(v) => T::from_postgres_bool(v),
            PostgresValue::Smallint(v) => T::from_postgres_i16(v),
            PostgresValue::Integer(v) => T::from_postgres_i32(v),
            PostgresValue::Bigint(v) => T::from_postgres_i64(v),
            PostgresValue::Text(v) => T::from_postgres_text(v.as_str()),
            PostgresValue::Bytea(v) => T::from_postgres_bytes(v.as_slice()),
            PostgresValue::Uuid(v) => T::from_postgres_uuid(v),
            PostgresValue::Json(v) => T::from_postgres_json(v),
            PostgresValue::Jsonb(v) => T::from_postgres_jsonb(v),
            PostgresValue::Enum(v) => T::from_postgres_text(v.as_str()),
            PostgresValue::MacAddr(v) => T::from_postgres_macaddr(v),
            PostgresValue::MacAddr8(v) => T::from_postgres_macaddr8(v),
            PostgresValue::BitVec(v) => T::from_postgres_bitvec(v),
            PostgresValue::Array(v) => T::from_postgres_array(v),
            PostgresValue::Null => T::from_postgres_null(),
        }
    }

    /// Converts this value into a `T` as `convert` does, leaving it in
    /// place: text and bytes are lent to the conversion, other payloads
    /// are copied first.
    pub fn convert_ref<T: FromPostgresValue>(&self) -> (res: Result<T, ConversionError>)
        ensures
            exists|copy: PostgresValue| same_value(copy, *self) && conversion_of(copy, res),
    {
        match self {
            PostgresValue::Text(v) => {
                let res = T::from_postgres_text(v.as_str());
                assert(same_value(*self, *self) && conversion_of(*self, res));
                res
            },
            PostgresValue::Bytea(v) => {
                let res = T::from_postgres_bytes(v.as_slice());
                assert(same_value(*self, *self) && conversion_of(*self, res));
                res
            },
            PostgresValue::Enum(v) => {
                let res = T::from_postgres_text(v.as_str());
                assert(same_value(*self, *self) && conversion_of(*self, res));
                res
            },
            _ => {
                let copy = self.clone();
                let ghost c = copy;
                let res = copy.convert();
                assert(same_value(c, *self) && conversion_of(c, res));
                res
            },
        }
    }

    /// The bytes of the UUID this value holds: a `UUID`, or text that spells one.
    pub fn try_into_uuid(self) -> (res: Result<[u8; 16], ConversionError>)
        ensures
            match value_as_uuid(self) {
                Ok(b) => res matches Ok(u) && u@ == b,
                Err(e) => res == Err::<[u8; 16], ConversionError>(e),
            },
            forall|b: Seq<u8>|
                #![trigger uuid_text(b)]
                b.len() == 16 && self is Text && self->Text_0@ == uuid_text(b) ==> (res matches Ok(
                    u,
                ) && u@ == b),
    {
        match self {
            PostgresValue::Uuid(u) => Ok(u),
            PostgresValue::Text(s) => match parse_uuid(s.as_str()) {
                Some(u) => Ok(u),
                None => Err(ConversionError::InvalidText),
            },
            _ => Err(ConversionError::Unsupported),
        }
    }
}


pub(crate) proof fn lemma_nat_text_parses(n: nat)
    ensures
        nat_text(n).len() >= 1,
        all_digits(nat_text(n)),
        digits_value(nat_text(n)) == n,
    decreases n,
{
    if n >= 10 {
        lemma_nat_text_parses(n / 10);
        let s = nat_text(n / 10);
        let t = s.push(digit_char((n % 10) as int));
        assert(t.drop_last() == s);
        assert forall|i: int| 0 <= i < t.len() implies #[trigger] is_digit(t[i]) by {
            if i < s.len() {
                assert(is_digit(s[i]));
            }
        }
    } else {
        assert(digits_value(nat_text(n)) == digits_value(seq![digit_char(n as int)].drop_last()) * 10
            + digit_value(digit_char(n as int)));
        assert(seq![digit_char(n as int)].drop_last() =~= Seq::<char>::empty());
    }
}

/// An integer that `String::from_postgres_i16`, `_i32` or `_i64` writes as
/// text parses back to itself with `from_postgres_text` of every integer
/// type whose range holds it.
pub proof fn law_integer_text_round_trip(v: int, signed: bool, min: int, max: int)
    requires
        min <= v <= max,
        v < 0 ==> signed,
    ensures
        parse_bounded(int_text(v), signed, min, max) == Some(v),
{
    if v < 0 {
        lemma_nat_text_parses((-v) as nat);
        let s = int_text(v);
        assert(s.drop_first() =~= nat_text((-v) as nat));
        assert(s[0] == '-');
    } else {
        lemma_nat_text_parses(v as nat);
        let s = nat_text(v as nat);
        assert(is_digit(s[0]));
    }
}

/// A Rust value stored as a PostgreSQL value converts back to itself.
pub proof fn law_values_round_trip(a: i16, b: i32, c: i64, d: bool, e: String, f: Vec<u8>)
    ensures
        value_as_i16(<PostgresValue as vstd::std_specs::convert::FromSpec<i16>>::from_spec(a)) == Ok::<i16, ConversionError>(a),
        value_as_i32(<PostgresValue as vstd::std_specs::convert::FromSpec<i32>>::from_spec(b)) == Ok::<i32, ConversionError>(b),
        value_as_i64(<PostgresValue as vstd::std_specs::convert::FromSpec<i64>>::from_spec(c)) == Ok::<i64, ConversionError>(c),
        value_as_bool(<PostgresValue as vstd::std_specs::convert::FromSpec<bool>>::from_spec(d)) == Ok::<bool, ConversionError>(d),
        value_as_string(<PostgresValue as vstd::std_specs::convert::FromSpec<String>>::from_spec(e)) == Ok::<String, ConversionError>(e),
        value_as_bytes(<PostgresValue as vstd::std_specs::convert::FromSpec<Vec<u8>>>::from_spec(f)) == Ok::<Vec<u8>, ConversionError>(f),
{
}

/// Every integer value converts to `i64`, and to a narrower type exactly
/// when it fits.
pub proof fn law_integer_values_widen(v: PostgresValue)
    requires
        v is Smallint || v is Integer || v is Bigint,
    ensures
        value_as_i64(v) is Ok,
        v is Smallint ==> value_as_i16(v) is Ok && value_as_i32(v) is Ok,
        v is Integer ==> value_as_i32(v) is Ok,
{
}

/// A Rust value stored as a PostgreSQL value, then read back with
/// `PostgresValue::convert` into its own type, is the value it was made
/// from (text by its characters, bytes by their contents).
pub proof fn law_convert_round_trip(
    a: i16,
    b: i32,
    c: i64,
    d: bool,
    e: String,
    f: Vec<u8>,
    ra: Result<i16, ConversionError>,
    rb: Result<i32, ConversionError>,
    rc: Result<i64, ConversionError>,
    rd: Result<bool, ConversionError>,
    re: Result<String, ConversionError>,
    rf: Result<Vec<u8>, ConversionError>,
)
    requires
        conversion_of(<PostgresValue as vstd::std_specs::convert::FromSpec<i16>>::from_spec(a), ra),
        conversion_of(<PostgresValue as vstd::std_specs::convert::FromSpec<i32>>::from_spec(b), rb),
        conversion_of(<PostgresValue as vstd::std_specs::convert::FromSpec<i64>>::from_spec(c), rc),
        conversion_of(<PostgresValue as vstd::std_specs::convert::FromSpec<bool>>::from_spec(d), rd),
        conversion_of(<PostgresValue as vstd::std_specs::convert::FromSpec<String>>::from_spec(e), re),
        conversion_of(<PostgresValue as vstd::std_specs::convert::FromSpec<Vec<u8>>>::from_spec(f), rf),
    ensures
        ra == Ok::<i16, ConversionError>(a),
        rb == Ok::<i32, ConversionError>(b),
        rc == Ok::<i64, ConversionError>(c),
        rd == Ok::<bool, ConversionError>(d),
        re matches Ok(s) && s@ == e@,
        rf matches Ok(v) && v@ == f@,
{
}

/// The number an integer value holds.
pub open spec fn integer_of(v: PostgresValue) -> Option<int> {
    match v {
        PostgresValue::Smallint(x) => Some(x as int),
        PostgresValue::Integer(x) => Some(x as int),
        PostgresValue::Bigint(x) => Some(x as int),
        _ => None,
    }
}

/// Reading an integer value as `i16`, `i32` or `i64` gives the number it
/// holds, sign included, whenever the target type can hold that number,
/// and `OutOfRange` otherwise.
pub proof fn law_integer_values_keep_their_number(v: PostgresValue)
    requires
        integer_of(v) is Some,
    ensures
        value_as_i64(v) matches Ok(r) && r as int == integer_of(v)->0,
        i32::MIN <= integer_of(v)->0 <= i32::MAX ==> (value_as_i32(v) matches Ok(r) && r as int
            == integer_of(v)->0),
        !(i32::MIN <= integer_of(v)->0 <= i32::MAX) ==> value_as_i32(v) == Err::<i32, ConversionError>(
            ConversionError::OutOfRange,
        ),
        i16::MIN <= integer_of(v)->0 <= i16::MAX ==> (value_as_i16(v) matches Ok(r) && r as int
            == integer_of(v)->0),
        !(i16::MIN <= integer_of(v)->0 <= i16::MAX) ==> value_as_i16(v) == Err::<i16, ConversionError>(
            ConversionError::OutOfRange,
        ),
{
}

/// A Rust integer stored as a PostgreSQL value is an integer value holding
/// the same number; only `u64` and `usize` numbers beyond `i64::MAX` are
/// stored as `i64::MAX`.
pub proof fn law_integers_store_their_number(
    a: i8,
    b: i16,
    c: i32,
    d: i64,
    e: u8,
    f: u16,
    g: u32,
    h: isize,
    k: u64,
    l: usize,
)
    ensures
        integer_of(<PostgresValue as vstd::std_specs::convert::FromSpec<i8>>::from_spec(a)) == Some(a as int),
        integer_of(<PostgresValue as vstd::std_specs::convert::FromSpec<i16>>::from_spec(b)) == Some(b as int),
        integer_of(<PostgresValue as vstd::std_specs::convert::FromSpec<i32>>::from_spec(c)) == Some(c as int),
        integer_of(<PostgresValue as vstd::std_specs::convert::FromSpec<i64>>::from_spec(d)) == Some(d as int),
        integer_of(<PostgresValue as vstd::std_specs::convert::FromSpec<u8>>::from_spec(e)) == Some(e as int),
        integer_of(<PostgresValue as vstd::std_specs::convert::FromSpec<u16>>::from_spec(f)) == Some(f as int),
        integer_of(<PostgresValue as vstd::std_specs::convert::FromSpec<u32>>::from_spec(g)) == Some(g as int),
        integer_of(<PostgresValue as vstd::std_specs::convert::FromSpec<isize>>::from_spec(h)) == Some(h as int),
        integer_of(<PostgresValue as vstd::std_specs::convert::FromSpec<u64>>::from_spec(k)) == Some(if k <= i64::MAX { k as int } else { i64::MAX as int }),
        integer_of(<PostgresValue as vstd::std_specs::convert::FromSpec<usize>>::from_spec(l)) == Some(if l <= i64::MAX { l as int } else { i64::MAX as int }),
        value_as_i64(<PostgresValue as vstd::std_specs::convert::FromSpec<u32>>::from_spec(g)) matches Ok(r) && r as int == g as int,
{
}

} // verus!
