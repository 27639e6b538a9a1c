//! MAC addresses read back from their text form (`08:00:2b:01:02:03`).
use vstd::prelude::*;

use crate::text::chars_of;
use crate::values::{hex_char, mac_text};

verus! {

/// A hexadecimal digit, in either case.
pub open spec fn is_hex(c: char) -> bool {
    ('0' <= c && c <= '9') || ('a' <= c && c <= 'f') || ('A' <= c && c <= 'F')
}

/// The value of a hexadecimal digit.
pub open spec fn hex_value(c: char) -> int {
    if '0' <= c && c <= '9' {
        c as int - '0' as int
    } else if 'a' <= c && c <= 'f' {
        c as int - 'a' as int + 10
    } else {
        c as int - 'A' as int + 10
    }
}

/// The byte that a two-character group spells, as `u8::from_str_radix` in
/// base 16 reads it: two hex digits, or a `+` sign and one hex digit.
pub open spec fn mac_group(a: char, b: char) -> Option<u8> {
    if is_hex(a) && is_hex(b) {
        Some((hex_value(a) * 16 + hex_value(b)) as u8)
    } else if a == '+' && is_hex(b) {
        Some(hex_value(b) as u8)
    } else {
        None
    }
}

/// The byte that the `i`-th group of `s` spells, if it spells one.
pub open spec fn group_at(s: Seq<char>, i: int) -> Option<u8> {
    mac_group(s[3 * i], s[3 * i + 1])
}

/// The character after the `i`-th group of `s`.
pub open spec fn separator_at(s: Seq<char>, i: int) -> char {
    s[3 * i + 2]
}

/// The `n` bytes that `s` spells as `n` two-character groups separated by
/// `:`, if it does.
pub open spec fn mac_bytes(s: Seq<char>, n: nat) -> Option<Seq<u8>> {
    if n > 0 && s.len() == 3 * n - 1
        && (forall|i: int| 0 <= i < n - 1 ==> #[trigger] separator_at(s, i) == ':')
        && (forall|i: int| 0 <= i < n ==> #[trigger] group_at(s, i) is Some)
    {
        Some(Seq::new(n, |i: int| group_at(s, i)->Some_0))
    } else {
        None
    }
}

fn hex_digit(c: char) -> (res: Option<u8>)
    ensures
        is_hex(c) ==> res == Some(hex_value(c) as u8),
        !is_hex(c) ==> res is None,
{
    if '0' <= c && c <= '9' {
        Some((c as u32 - '0' as u32) as u8)
    } else if 'a' <= c && c <= 'f' {
        Some((c as u32 - 'a' as u32 + 10) as u8)
    } else if 'A' <= c && c <= 'F' {
        Some((c as u32 - 'A' as u32 + 10) as u8)
    } else {
        None
    }
}

fn group_byte(a: char, b: char) -> (res: Option<u8>)
    ensures
        res == mac_group(a, b),
{
    match (hex_digit(a), hex_digit(b)) {
        (Some(hi), Some(lo)) => Some(hi * 16 + lo),
        (None, Some(lo)) => {
            if a == '+' {
                Some(lo)
            } else {
                None
            }
        },
        _ => None,
    }
}

/// Reads a MAC address of `n` bytes from its text: `n` groups of two hex
/// digits separated by `:`. `None` when the text has another shape.
pub fn parse_mac(value: &str, n: usize) -> (res: Option<Vec<u8>>)
    ensures
        match mac_bytes(value@, n as nat) {
            Some(b) => res matches Some(v) && v@ == b,
            None => res is None,
        },
{
    let s = chars_of(value);
    if n == 0 || s.len() / 3 != n - 1 || s.len() % 3 != 2 {
        return None;
    }
    assert(s@.len() == 3 * n - 1);
    let mut out: Vec<u8> = Vec::new();
    let mut i: usize = 0;
    while i < n
        invariant
            s@ == value@,
            n > 0,
            s@.len() == 3 * n - 1,
            i <= n,
            out@.len() == i,
            forall|j: int| 0 <= j < i ==> j < n - 1 ==> #[trigger] separator_at(s@, j) == ':',
            forall|j: int| 0 <= j < i ==> #[trigger] group_at(s@, j) == Some(out@[j]),
        decreases n - i,
    {
        let k = 3 * i;
        match group_byte(s[k], s[k + 1]) {
            Some(b) => out.push(b),
            None => {
                assert(group_at(s@, i as int) is None);
                return None;
            },
        }
        if i + 1 < n && s[k + 2] != ':' {
            assert(separator_at(s@, i as int) != ':');
            return None;
        }
        i = i + 1;
    }
    proof {
        assert(forall|j: int| 0 <= j < n ==> #[trigger] group_at(s@, j) is Some);
        assert(out@ =~= Seq::new(n as nat, |j: int| group_at(s@, j)->Some_0));
    }
    Some(out)
}

/// A column of texts read as MAC addresses of `n` bytes, a missing text
/// staying missing; `None` when a present text is not such an address.
pub open spec fn mac_column(values: Seq<Option<String>>, n: nat) -> Option<Seq<Option<Seq<u8>>>> {
    if forall|i: int|
        0 <= i < values.len() ==> (#[trigger] values[i] is Some ==> mac_bytes(
            values[i]->Some_0@,
            n,
        ) is Some)
    {
        Some(
            Seq::new(
                values.len(),
                |i: int|
                    match values[i] {
                        Some(t) => mac_bytes(t@, n),
                        None => None,
                    },
            ),
        )
    } else {
        None
    }
}

/// The bytes of an optional address.
pub open spec fn opt_bytes(o: Option<Vec<u8>>) -> Option<Seq<u8>> {
    match o {
        Some(v) => Some(v@),
        None => None,
    }
}

/// Reads each text of a column of MAC addresses; a missing text stays
/// missing. `None` when any present text is not an address of `n` bytes.
pub fn parse_mac_array(values: &[Option<String>], n: usize) -> (res: Option<Vec<Option<Vec<u8>>>>)
    ensures
        match mac_column(values@, n as nat) {
            Some(c) => res matches Some(out) && out@.len() == c.len() && forall|i: int|
                0 <= i < c.len() ==> opt_bytes(#[trigger] out@[i]) == c[i],
            None => res is None,
        },
{
    let mut out: Vec<Option<Vec<u8>>> = Vec::new();
    let mut i: usize = 0;
    while i < values.len()
        invariant
            i <= values@.len(),
            out@.len() == i,
            forall|j: int| 0 <= j < i ==> values@[j] is Some ==> mac_bytes(values@[j]->Some_0@, n as nat) is Some,
            forall|j: int| 0 <= j < i ==> opt_bytes(#[trigger] out@[j]) == match values@[j] {
                Some(t) => mac_bytes(t@, n as nat),
                None => None,
            },
        decreases values@.len() - i,
    {
        match &values[i] {
            Some(t) => match parse_mac(t.as_str(), n) {
                Some(v) => out.push(Some(v)),
                None => {
                    assert(!(values@[i as int] is Some ==> mac_bytes(values@[i as int]->Some_0@, n as nat) is Some));
                    return None;
                },
            },
            None => out.push(None),
        }
        i = i + 1;
    }
    Some(out)
}

proof fn lemma_mac_text_shape(bytes: Seq<u8>)
    requires
        bytes.len() > 0,
    ensures
        mac_text(bytes).len() == 3 * bytes.len() - 1,
        forall|i: int| 0 <= i < bytes.len() ==> {
            &&& #[trigger] mac_text(bytes)[3 * i] == hex_char(bytes[i] as int / 16)
            &&& mac_text(bytes)[3 * i + 1] == hex_char(bytes[i] as int % 16)
        },
        forall|i: int| 0 <= i < bytes.len() - 1 ==> #[trigger] separator_at(mac_text(bytes), i) == ':',
    decreases bytes.len(),
{
    if bytes.len() > 1 {
        let front = bytes.drop_last();
        lemma_mac_text_shape(front);
        let t = mac_text(bytes);
        let f = mac_text(front);
        assert(t == f + seq![':'] + crate::values::byte_hex(bytes.last()));
        assert forall|i: int| 0 <= i < bytes.len() implies {
            &&& #[trigger] t[3 * i] == hex_char(bytes[i] as int / 16)
            &&& t[3 * i + 1] == hex_char(bytes[i] as int % 16)
        } by {
            if i < bytes.len() - 1 {
                assert(front[i] == bytes[i]);
                assert(t[3 * i] == f[3 * i]);
                assert(t[3 * i + 1] == f[3 * i + 1]);
            }
        }
        assert forall|i: int| 0 <= i < bytes.len() - 1 implies #[trigger] separator_at(t, i) == ':' by {
            if i < bytes.len() - 2 {
                assert(separator_at(f, i) == ':');
            }
        }
    }
}

proof fn lemma_hex_char_value(d: int)
    requires
        0 <= d < 16,
    ensures
        is_hex(hex_char(d)),
        hex_value(hex_char(d)) == d,
{
}

/// A MAC address written as text (lower-case hex pairs joined by `:`, as
/// `PostgresValue::to_text` writes `MACADDR` and `MACADDR8` values) reads
/// back as the same bytes.
pub proof fn law_mac_text_round_trip(bytes: Seq<u8>)
    requires
        bytes.len() > 0,
    ensures
        mac_bytes(mac_text(bytes), bytes.len()) == Some(bytes),
{
    lemma_mac_text_shape(bytes);
    let t = mac_text(bytes);
    let n = bytes.len();
    assert forall|i: int| 0 <= i < n implies #[trigger] group_at(t, i) == Some(bytes[i]) by {
        let b = bytes[i];
        assert(t[3 * i] == hex_char(b as int / 16));
        lemma_hex_char_value(b as int / 16);
        lemma_hex_char_value(b as int % 16);
        assert((b as int / 16) * 16 + b as int % 16 == b as int);
    }
    assert(forall|i: int| 0 <= i < n ==> #[trigger] group_at(t, i) is Some);
    assert(Seq::new(n, |i: int| group_at(t, i)->Some_0) =~= bytes);
}

} // verus!
