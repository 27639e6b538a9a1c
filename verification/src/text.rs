//! Character-level text handling shared by the value codecs: whitespace
//! trimming, Rust's integer grammar, and building `String`s.
use vstd::prelude::*;
use vstd::string::StringExecFns;

verus! {

broadcast use vstd::seq_lib::group_seq_properties;

/// `char::is_whitespace`: the Unicode `White_Space` property.
pub open spec fn is_whitespace(c: char) -> bool {
    ||| ('\t' <= c && c <= '\r')
    ||| c == ' '
    ||| c == '\u{85}'
    ||| c == '\u{a0}'
    ||| c == '\u{1680}'
    ||| ('\u{2000}' <= c && c <= '\u{200a}')
    ||| c == '\u{2028}'
    ||| c == '\u{2029}'
    ||| c == '\u{202f}'
    ||| c == '\u{205f}'
    ||| c == '\u{3000}'
}

/// `s` without its leading whitespace.
pub open spec fn trim_start(s: Seq<char>) -> Seq<char>
    decreases s.len(),
{
    if s.len() > 0 && is_whitespace(s[0]) {
        trim_start(s.drop_first())
    } else {
        s
    }
}

/// `s` without its trailing whitespace.
pub open spec fn trim_end(s: Seq<char>) -> Seq<char>
    decreases s.len(),
{
    if s.len() > 0 && is_whitespace(s.last()) {
        trim_end(s.drop_last())
    } else {
        s
    }
}

/// `str::trim`: `s` without leading and trailing whitespace.
pub open spec fn trim(s: Seq<char>) -> Seq<char> {
    trim_end(trim_start(s))
}

/// An ASCII decimal digit.
pub open spec fn is_digit(c: char) -> bool {
    '0' <= c && c <= '9'
}

/// The value of an ASCII decimal digit.
pub open spec fn digit_value(c: char) -> int {
    c as int - '0' as int
}

/// Every character of `s` is an ASCII decimal digit.
pub open spec fn all_digits(s: Seq<char>) -> bool {
    forall|i: int| 0 <= i < s.len() ==> #[trigger] is_digit(s[i])
}

/// The number that a string of decimal digits denotes.
pub open spec fn digits_value(s: Seq<char>) -> int
    decreases s.len(),
{
    if s.len() == 0 {
        0
    } else {
        digits_value(s.drop_last()) * 10 + digit_value(s.last())
    }
}

/// Rust's grammar for integers (`FromStr`): an optional `+` (or `-` for a
/// signed type) followed by at least one ASCII digit. The result is the
/// mathematical value, before any range check.
pub open spec fn parse_integer(s: Seq<char>, signed: bool) -> Option<int> {
    if s.len() == 0 {
        None
    } else if (s[0] == '+' || s[0] == '-') && s.len() == 1 {
        None
    } else if s[0] == '+' {
        if all_digits(s.drop_first()) {
            Some(digits_value(s.drop_first()))
        } else {
            None
        }
    } else if s[0] == '-' && signed {
        if all_digits(s.drop_first()) {
            Some(-digits_value(s.drop_first()))
        } else {
            None
        }
    } else if all_digits(s) {
        Some(digits_value(s))
    } else {
        None
    }
}

/// `s.parse::<T>()` for an integer type `T` with range `min..=max`.
pub open spec fn parse_bounded(s: Seq<char>, signed: bool, min: int, max: int) -> Option<int> {
    match parse_integer(s, signed) {
        Some(v) => if min <= v && v <= max {
            Some(v)
        } else {
            None
        },
        None => None,
    }
}

proof fn lemma_digits_value_nonneg(s: Seq<char>)
    requires
        all_digits(s),
    ensures
        digits_value(s) >= 0,
    decreases s.len(),
{
    if s.len() > 0 {
        assert(is_digit(s[s.len() - 1]));
        assert(all_digits(s.drop_last())) by {
            assert forall|i: int| 0 <= i < s.drop_last().len() implies is_digit(
                #[trigger] s.drop_last()[i],
            ) by {
                assert(is_digit(s[i]));
            }
        }
        lemma_digits_value_nonneg(s.drop_last());
    }
}

/// A longer run of digits never denotes a smaller number.
proof fn lemma_digits_value_monotone(s: Seq<char>, n: int)
    requires
        all_digits(s),
        0 <= n <= s.len(),
    ensures
        digits_value(s.take(n)) <= digits_value(s),
    decreases s.len(),
{
    if n < s.len() {
        assert(is_digit(s[s.len() - 1]));
        assert(all_digits(s.drop_last())) by {
            assert forall|i: int| 0 <= i < s.drop_last().len() implies is_digit(
                #[trigger] s.drop_last()[i],
            ) by {
                assert(is_digit(s[i]));
            }
        }
        assert(s.drop_last().take(n) =~= s.take(n));
        lemma_digits_value_monotone(s.drop_last(), n);
        lemma_digits_value_nonneg(s.drop_last());
    } else {
        assert(s.take(n) =~= s);
    }
}

/// The digits of `s[lo..hi]` as a number, or `None` when one of them is
/// not a digit or the number exceeds `2^64`.
fn digits_in(s: &[char], lo: usize, hi: usize) -> (res: Option<u128>)
    requires
        lo <= hi <= s@.len(),
    ensures
        res matches Some(v) ==> all_digits(s@.subrange(lo as int, hi as int)) && v
            == digits_value(s@.subrange(lo as int, hi as int)) && v <= 0x1_0000_0000_0000_0000,
        res is None ==> !all_digits(s@.subrange(lo as int, hi as int)) || digits_value(
            s@.subrange(lo as int, hi as int),
        ) > 0x1_0000_0000_0000_0000,
{
    let ghost whole = s@.subrange(lo as int, hi as int);
    let mut acc: u128 = 0;
    let mut i = lo;
    while i < hi
        invariant
            lo <= i <= hi <= s@.len(),
            whole == s@.subrange(lo as int, hi as int),
            all_digits(s@.subrange(lo as int, i as int)),
            acc == digits_value(s@.subrange(lo as int, i as int)),
            acc <= 0x1_0000_0000_0000_0000,
        decreases hi - i,
    {
        let c = s[i];
        assert(s@.subrange(lo as int, i + 1).drop_last() =~= s@.subrange(lo as int, i as int));
        if !('0' <= c && c <= '9') {
            assert(whole[i - lo] == c);
            assert(!is_digit(whole[i - lo]));
            return None;
        }
        let d = (c as u32 - '0' as u32) as u128;
        acc = acc * 10 + d;
        i = i + 1;
        assert(all_digits(s@.subrange(lo as int, i as int)));
        if acc > 0x1_0000_0000_0000_0000 {
            proof {
                if all_digits(whole) {
                    assert(whole.take(i - lo) =~= s@.subrange(lo as int, i as int));
                    lemma_digits_value_monotone(whole, i - lo);
                }
            }
            return None;
        }
    }
    assert(whole =~= s@.subrange(lo as int, i as int));
    Some(acc)
}

/// `s[lo..hi].parse()` into an integer type whose values are `min..=max`
/// (`signed` tells whether the type accepts a leading `-`).
pub fn parse_bounded_in(s: &[char], lo: usize, hi: usize, signed: bool, min: i128, max: i128) -> (res:
    Option<i128>)
    requires
        lo <= hi <= s@.len(),
        -0x1_0000_0000_0000_0000 <= min,
        max <= 0x1_0000_0000_0000_0000,
    ensures
        match res {
            Some(v) => parse_bounded(s@.subrange(lo as int, hi as int), signed, min as int, max as int)
                == Some(v as int),
            None => parse_bounded(s@.subrange(lo as int, hi as int), signed, min as int, max as int)
                is None,
        },
{
    let ghost t = s@.subrange(lo as int, hi as int);
    if lo == hi {
        return None;
    }
    let first = s[lo];
    assert(t[0] == first);
    if (first == '+' || first == '-') && hi - lo == 1 {
        return None;
    }
    let (neg, start) = if first == '+' {
        (false, lo + 1)
    } else if first == '-' && signed {
        (true, lo + 1)
    } else {
        (false, lo)
    };
    assert(start > lo ==> t.drop_first() =~= s@.subrange(start as int, hi as int));
    assert(start == lo ==> t =~= s@.subrange(start as int, hi as int));
    match digits_in(s, start, hi) {
        None => None,
        Some(m) => {
            let v: i128 = if neg {
                -(m as i128)
            } else {
                m as i128
            };
            if min <= v && v <= max {
                Some(v)
            } else {
                None
            }
        },
    }
}

/// Bounds of the trimmed part of `s[lo..hi]`.
pub fn trim_range(s: &[char], lo: usize, hi: usize) -> (res: (usize, usize))
    requires
        lo <= hi <= s@.len(),
    ensures
        lo <= res.0 <= res.1 <= hi,
        s@.subrange(res.0 as int, res.1 as int) == trim(s@.subrange(lo as int, hi as int)),
{
    let mut a = lo;
    while a < hi && is_whitespace_char(s[a])
        invariant
            lo <= a <= hi <= s@.len(),
            trim_start(s@.subrange(lo as int, hi as int)) == trim_start(
                s@.subrange(a as int, hi as int),
            ),
        decreases hi - a,
    {
        assert(s@.subrange(a as int, hi as int).drop_first() =~= s@.subrange(a + 1, hi as int));
        a = a + 1;
    }
    assert(!(s@.subrange(a as int, hi as int).len() > 0 && is_whitespace(
        s@.subrange(a as int, hi as int)[0],
    )));
    let mut b = hi;
    while b > a && is_whitespace_char(s[b - 1])
        invariant
            lo <= a <= b <= hi <= s@.len(),
            trim(s@.subrange(lo as int, hi as int)) == trim_end(s@.subrange(a as int, b as int)),
            !(s@.subrange(a as int, hi as int).len() > 0 && is_whitespace(s@[a as int])),
            b < hi ==> a < b || a == b,
        decreases b - a,
    {
        assert(s@.subrange(a as int, b as int).drop_last() =~= s@.subrange(a as int, b - 1));
        b = b - 1;
    }
    (a, b)
}

/// Exec form of [`is_whitespace`].
pub fn is_whitespace_char(c: char) -> (res: bool)
    ensures
        res == is_whitespace(c),
{
    ('\t' <= c && c <= '\r') || c == ' ' || c == '\u{85}' || c == '\u{a0}' || c == '\u{1680}' || (
    '\u{2000}' <= c && c <= '\u{200a}') || c == '\u{2028}' || c == '\u{2029}' || c == '\u{202f}'
        || c == '\u{205f}' || c == '\u{3000}'
}

/// The characters of `s`.
pub fn chars_of(s: &str) -> (res: Vec<char>)
    ensures
        res@ == s@,
{
    let mut out: Vec<char> = Vec::new();
    for c in it: s.chars()
        invariant
            out@ == it.seq().take(it.index() as int),
            it.seq() == s@,
    {
        out.push(c);
    }
    out
}

/// `String::push`: appends one character.
///
/// Claims: the text after the call is the text before it followed by `c`.
#[verifier::external_body]
pub(crate) fn push_char(s: &mut String, c: char)
    ensures
        final(s)@ == old(s)@.push(c),
{
    s.push(c)
}

/// Appends a string slice.
pub(crate) fn push_str(s: &mut String, t: &str)
    ensures
        final(s)@ == old(s)@ + t@,
{
    s.append(t)
}

/// A `String` holding the characters `v`.
pub fn string_from_chars(v: &[char]) -> (res: String)
    ensures
        res@ == v@,
{
    let mut out = String::new();
    let mut i: usize = 0;
    while i < v.len()
        invariant
            i <= v@.len(),
            out@ == v@.take(i as int),
        decreases v@.len() - i,
    {
        push_char(&mut out, v[i]);
        assert(v@.take(i + 1) =~= v@.take(i as int).push(v@[i as int]));
        i = i + 1;
    }
    assert(v@.take(i as int) =~= v@);
    out
}

/// A `String` holding the characters of `s[lo..hi]`.
pub fn string_from_range(s: &[char], lo: usize, hi: usize) -> (res: String)
    requires
        lo <= hi <= s@.len(),
    ensures
        res@ == s@.subrange(lo as int, hi as int),
{
    let mut out = String::new();
    let mut i: usize = lo;
    while i < hi
        invariant
            lo <= i <= hi <= s@.len(),
            out@ == s@.subrange(lo as int, i as int),
        decreases hi - i,
    {
        push_char(&mut out, s[i]);
        assert(s@.subrange(lo as int, i + 1) =~= s@.subrange(lo as int, i as int).push(
            s@[i as int],
        ));
        i = i + 1;
    }
    out
}

/// Whether `s[at..]` starts with `pat`.
pub fn starts_with_at(s: &[char], at: usize, hi: usize, pat: &[char]) -> (res: bool)
    requires
        at <= hi <= s@.len(),
    ensures
        res == (at + pat@.len() <= hi && s@.subrange(at as int, at + pat@.len()) == pat@),
{
    if pat.len() > hi - at {
        return false;
    }
    let mut i: usize = 0;
    while i < pat.len()
        invariant
            at + pat@.len() <= hi <= s@.len(),
            i <= pat@.len(),
            forall|j: int| 0 <= j < i ==> s@[at + j] == pat@[j],
        decreases pat@.len() - i,
    {
        if s[at + i] != pat[i] {
            assert(s@.subrange(at as int, at + pat@.len())[i as int] != pat@[i as int]);
            return false;
        }
        i = i + 1;
    }
    assert(s@.subrange(at as int, at + pat@.len()) =~= pat@);
    true
}

/// A copy of `b`.
pub fn copy_bytes(b: &[u8]) -> (res: Vec<u8>)
    ensures
        res@ == b@,
{
    let mut out: Vec<u8> = Vec::new();
    let mut i: usize = 0;
    while i < b.len()
        invariant
            i <= b@.len(),
            out@ == b@.take(i as int),
        decreases b@.len() - i,
    {
        out.push(b[i]);
        assert(b@.take(i + 1) =~= b@.take(i as int).push(b@[i as int]));
        i = i + 1;
    }
    assert(b@.take(i as int) =~= b@);
    out
}

} // verus!
