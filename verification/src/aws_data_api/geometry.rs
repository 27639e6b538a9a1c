//! Points, paths and boxes as the Data API returns them, as text: the
//! text of each coordinate pair in `(x,y)`, `[(x,y),(x,y),...]` and
//! `((x1,y1),(x2,y2))`. The coordinates themselves are floating-point
//! numbers, which the application reads from these texts.
use vstd::prelude::*;

use super::interval::{field_end, field_end_in, find_from, find_in};
use crate::text::{chars_of, string_from_range, trim, trim_range};

verus! {

broadcast use vstd::seq_lib::group_seq_properties;

/// `s` without every leading `c` (`trim_start_matches(c)`).
pub open spec fn strip_char_start(s: Seq<char>, c: char) -> Seq<char>
    decreases s.len(),
{
    if s.len() > 0 && s[0] == c {
        strip_char_start(s.drop_first(), c)
    } else {
        s
    }
}

/// `s` without every trailing `c` (`trim_end_matches(c)`).
pub open spec fn strip_char_end(s: Seq<char>, c: char) -> Seq<char>
    decreases s.len(),
{
    if s.len() > 0 && s.last() == c {
        strip_char_end(s.drop_last(), c)
    } else {
        s
    }
}

/// A parenthesis.
pub open spec fn is_paren(c: char) -> bool {
    c == '(' || c == ')'
}

/// `s` without the parentheses at its start.
pub open spec fn strip_parens_start(s: Seq<char>) -> Seq<char>
    decreases s.len(),
{
    if s.len() > 0 && is_paren(s[0]) {
        strip_parens_start(s.drop_first())
    } else {
        s
    }
}

/// `s` without the parentheses at its end.
pub open spec fn strip_parens_end(s: Seq<char>) -> Seq<char>
    decreases s.len(),
{
    if s.len() > 0 && is_paren(s.last()) {
        strip_parens_end(s.drop_last())
    } else {
        s
    }
}

/// `s` without the parentheses at either end
/// (`trim_matches(|c| c == '(' || c == ')')`).
pub open spec fn strip_parens(s: Seq<char>) -> Seq<char> {
    strip_parens_end(strip_parens_start(s))
}

/// The texts of the two coordinates of a point `(x,y)`, trimmed: the part
/// before the first comma, and the part between the first and a second
/// comma if there is a first comma.
pub open spec fn xy_texts(s: Seq<char>) -> (Seq<char>, Option<Seq<char>>) {
    let t = strip_parens(s);
    let e = field_end(t, ',');
    let x = trim(t.take(e));
    if e == t.len() {
        (x, None)
    } else {
        let r = t.skip(e + 1);
        (x, Some(trim(r.take(field_end(r, ',')))))
    }
}

/// The texts of the two corners of a box `((x1,y1),(x2,y2))`: what lies on
/// either side of the first `),(` once the outer parentheses are gone.
pub open spec fn rect_texts(s: Seq<char>) -> Option<(Seq<char>, Seq<char>)> {
    let t = strip_char_end(strip_char_start(trim(s), '('), ')');
    match find_from(t, "),("@, 0) {
        None => None,
        Some(m) => Some((t.take(m), t.skip(m + 3))),
    }
}

/// The list of a path, `[...]` or `(...)`, without its brackets.
pub open spec fn path_inner(s: Seq<char>) -> Seq<char> {
    strip_char_end(
        strip_char_start(strip_char_end(strip_char_start(trim(s), '['), ']'), '('),
        ')',
    )
}

/// Opening minus closing parentheses in `s`.
pub open spec fn paren_depth(s: Seq<char>) -> int
    decreases s.len(),
{
    if s.len() == 0 {
        0
    } else {
        paren_depth(s.drop_last()) + if s.last() == '(' {
            1int
        } else if s.last() == ')' {
            -1int
        } else {
            0int
        }
    }
}

/// `s[k]` is a comma outside every parenthesis.
pub open spec fn is_top_comma(s: Seq<char>, k: int) -> bool {
    s[k] == ',' && paren_depth(s.take(k)) == 0
}

/// The first comma of `s` at or after `j` that is outside every parenthesis.
pub open spec fn first_top_comma(s: Seq<char>, j: int) -> Option<int>
    decreases s.len() - j,
{
    if j < 0 || j >= s.len() {
        None
    } else if is_top_comma(s, j) {
        Some(j)
    } else {
        first_top_comma(s, j + 1)
    }
}

/// `[p]` when `p` holds more than whitespace, else nothing.
pub open spec fn keep_nonblank(p: Seq<char>) -> Seq<Seq<char>> {
    if trim(p).len() > 0 {
        seq![p]
    } else {
        Seq::empty()
    }
}

/// The texts of the points of a path's list: the pieces between the commas
/// that are outside every parenthesis, leaving out blank pieces.
pub open spec fn point_texts(s: Seq<char>) -> Seq<Seq<char>>
    decreases s.len(),
{
    match first_top_comma(s, 0) {
        Some(m) => if 0 <= m < s.len() {
            keep_nonblank(s.take(m)) + point_texts(s.skip(m + 1))
        } else {
            keep_nonblank(s)
        },
        None => keep_nonblank(s),
    }
}

/// The texts of `strings`.
pub open spec fn texts_of(strings: Seq<String>) -> Seq<Seq<char>> {
    strings.map_values(|x: String| x@)
}

/// Start of `s[lo..hi]` once every leading `c` is gone.
fn skip_char_start(s: &[char], lo: usize, hi: usize, c: char) -> (res: usize)
    requires
        lo <= hi <= s@.len(),
    ensures
        lo <= res <= hi,
        s@.subrange(res as int, hi as int) == strip_char_start(s@.subrange(lo as int, hi as int), c),
{
    let mut a = lo;
    while a < hi && s[a] == c
        invariant
            lo <= a <= hi <= s@.len(),
            strip_char_start(s@.subrange(lo as int, hi as int), c) == strip_char_start(
                s@.subrange(a as int, hi as int),
                c,
            ),
        decreases hi - a,
    {
        assert(s@.subrange(a as int, hi as int).drop_first() =~= s@.subrange(a + 1, hi as int));
        a = a + 1;
    }
    a
}

/// End of `s[lo..hi]` once every trailing `c` is gone.
fn skip_char_end(s: &[char], lo: usize, hi: usize, c: char) -> (res: usize)
    requires
        lo <= hi <= s@.len(),
    ensures
        lo <= res <= hi,
        s@.subrange(lo as int, res as int) == strip_char_end(s@.subrange(lo as int, hi as int), c),
{
    let mut b = hi;
    while b > lo && s[b - 1] == c
        invariant
            lo <= b <= hi <= s@.len(),
            strip_char_end(s@.subrange(lo as int, hi as int), c) == strip_char_end(
                s@.subrange(lo as int, b as int),
                c,
            ),
        decreases b - lo,
    {
        assert(s@.subrange(lo as int, b as int).drop_last() =~= s@.subrange(lo as int, b - 1));
        b = b - 1;
    }
    b
}

/// Bounds of `s[lo..hi]` once the parentheses at both ends are gone.
fn skip_parens(s: &[char], lo: usize, hi: usize) -> (res: (usize, usize))
    requires
        lo <= hi <= s@.len(),
    ensures
        lo <= res.0 <= res.1 <= hi,
        s@.subrange(res.0 as int, res.1 as int) == strip_parens(s@.subrange(lo as int, hi as int)),
{
    let mut a = lo;
    while a < hi && (s[a] == '(' || s[a] == ')')
        invariant
            lo <= a <= hi <= s@.len(),
            strip_parens_start(s@.subrange(lo as int, hi as int)) == strip_parens_start(
                s@.subrange(a as int, hi as int),
            ),
        decreases hi - a,
    {
        assert(s@.subrange(a as int, hi as int).drop_first() =~= s@.subrange(a + 1, hi as int));
        a = a + 1;
    }
    let mut b = hi;
    while b > a && (s[b - 1] == '(' || s[b - 1] == ')')
        invariant
            lo <= a <= b <= hi <= s@.len(),
            strip_parens(s@.subrange(lo as int, hi as int)) == strip_parens_end(
                s@.subrange(a as int, b as int),
            ),
        decreases b - a,
    {
        assert(s@.subrange(a as int, b as int).drop_last() =~= s@.subrange(a as int, b - 1));
        b = b - 1;
    }
    (a, b)
}

/// The text of an optional `String`.
pub open spec fn opt_string_text(o: Option<String>) -> Option<Seq<char>> {
    match o {
        Some(x) => Some(x@),
        None => None,
    }
}

/// The texts of the two coordinates of a point written `(x,y)`, trimmed;
/// the second is missing when the text has no comma.
pub fn point_xy_texts(text: &str) -> (res: (String, Option<String>))
    ensures
        res.0@ == xy_texts(text@).0,
        opt_string_text(res.1) == xy_texts(text@).1,
{
    let s = chars_of(text);
    let (a, b) = skip_parens(&s, 0, s.len());
    let ghost t = s@.subrange(a as int, b as int);
    assert(s@.subrange(0, s@.len() as int) =~= s@);
    let e = field_end_in(&s, a, b, ',');
    let (xa, xb) = trim_range(&s, a, e);
    assert(t.take(e - a) =~= s@.subrange(a as int, e as int));
    let x = string_from_range(&s, xa, xb);
    if e == b {
        return (x, None);
    }
    let e2 = field_end_in(&s, e + 1, b, ',');
    let (ya, yb) = trim_range(&s, e + 1, e2);
    proof {
        let r = t.skip(e - a + 1);
        assert(r =~= s@.subrange(e + 1, b as int));
        assert(r.take(e2 - (e + 1)) =~= s@.subrange(e + 1, e2 as int));
    }
    (x, Some(string_from_range(&s, ya, yb)))
}

proof fn lemma_find_from_bounds(s: Seq<char>, p: Seq<char>, j: int)
    ensures
        find_from(s, p, j) matches Some(i) ==> j <= i && i + p.len() <= s.len() && s.subrange(
            i,
            i + p.len(),
        ) == p,
    decreases s.len() + 1 - j,
{
    if !(j < 0 || j + p.len() > s.len()) && s.subrange(j, j + p.len()) != p {
        lemma_find_from_bounds(s, p, j + 1);
    }
}

/// The texts of the two corners of a box written `((x1,y1),(x2,y2))`;
/// `None` when the text has no `),(`.
pub fn rect_corner_texts(text: &str) -> (res: Option<(String, String)>)
    ensures
        match rect_texts(text@) {
            Some((p, q)) => res matches Some((x, y)) && x@ == p && y@ == q,
            None => res is None,
        },
{
    let s = chars_of(text);
    assert(s@.subrange(0, s@.len() as int) =~= s@);
    let (a0, b0) = trim_range(&s, 0, s.len());
    let a = skip_char_start(&s, a0, b0, '(');
    let b = skip_char_end(&s, a, b0, ')');
    let pat: [char; 3] = [')', ',', '('];
    proof {
        reveal_strlit("),(");
        assert(pat@ =~= "),("@);
    }
    let ghost t = s@.subrange(a as int, b as int);
    match find_in(&s, a, b, &pat) {
        None => None,
        Some(m) => {
            proof {
                lemma_find_from_bounds(t, pat@, 0);
                assert(t.take(m as int) =~= s@.subrange(a as int, a + m));
                assert(t.skip(m + 3) =~= s@.subrange(a + m + 3, b as int));
            }
            Some((string_from_range(&s, a, a + m), string_from_range(&s, a + m + 3, b)))
        },
    }
}

proof fn lemma_no_top_comma_between(s: Seq<char>, j: int, m: int)
    requires
        0 <= j <= m <= s.len(),
        forall|k: int| j <= k < m ==> !#[trigger] is_top_comma(s, k),
    ensures
        first_top_comma(s, j) == first_top_comma(s, m),
    decreases m - j,
{
    if j < m {
        lemma_no_top_comma_between(s, j + 1, m);
    }
}

/// The texts of the points of a path written `[(x,y),(x,y),...]` or
/// `((x,y),(x,y),...)`: the pieces of its list between the commas outside
/// every parenthesis, blank pieces left out.
pub fn path_point_texts(text: &str) -> (res: Vec<String>)
    ensures
        texts_of(res@) == point_texts(path_inner(text@)),
{
    let s = chars_of(text);
    assert(s@.subrange(0, s@.len() as int) =~= s@);
    let (a0, b0) = trim_range(&s, 0, s.len());
    let a1 = skip_char_start(&s, a0, b0, '[');
    let b1 = skip_char_end(&s, a1, b0, ']');
    let a = skip_char_start(&s, a1, b1, '(');
    let b = skip_char_end(&s, a, b1, ')');
    let ghost inner = s@.subrange(a as int, b as int);
    assert(inner == path_inner(text@));
    let mut out: Vec<String> = Vec::new();
    let mut depth: i128 = 0;
    let mut start: usize = a;
    let mut i: usize = a;
    assert(s@.subrange(start as int, i as int) =~= Seq::<char>::empty());
    assert(texts_of(out@) =~= Seq::<Seq<char>>::empty());
    while i < b
        invariant
            a <= start <= i <= b <= s@.len(),
            inner == s@.subrange(a as int, b as int),
            depth == paren_depth(s@.subrange(start as int, i as int)),
            -(i - start) <= depth <= i - start,
            forall|k: int|
                0 <= k < i - start ==> !#[trigger] is_top_comma(
                    s@.subrange(start as int, b as int),
                    k,
                ),
            texts_of(out@) + point_texts(s@.subrange(start as int, b as int)) == point_texts(inner),
        decreases b - i,
    {
        let ghost t = s@.subrange(start as int, b as int);
        let c = s[i];
        assert(t.take(i - start) =~= s@.subrange(start as int, i as int));
        assert(s@.subrange(start as int, i + 1).drop_last() =~= s@.subrange(start as int, i as int));
        if c == ',' && depth == 0 {
            assert(is_top_comma(t, i - start));
            proof {
                lemma_no_top_comma_between(t, 0, i - start);
            }
            assert(t.take(i - start) =~= s@.subrange(start as int, i as int));
            assert(t.skip(i - start + 1) =~= s@.subrange(i + 1, b as int));
            let (pa, pb) = trim_range(&s, start, i);
            let ghost before = out@;
            if pa < pb {
                let piece = string_from_range(&s, start, i);
                out.push(piece);
                assert(texts_of(out@) =~= texts_of(before) + seq![s@.subrange(start as int, i as int)]);
            } else {
                assert(out@ == before);
            }
            assert(texts_of(out@) + point_texts(s@.subrange(i + 1, b as int)) =~= texts_of(before)
                + point_texts(t));
            start = i + 1;
            depth = 0;
            i = i + 1;
            assert(s@.subrange(start as int, i as int) =~= Seq::<char>::empty());
        } else {
            if c == '(' {
                depth = depth + 1;
            } else if c == ')' {
                depth = depth - 1;
            }
            assert(!is_top_comma(t, i - start));
            i = i + 1;
        }
    }
    let ghost t = s@.subrange(start as int, b as int);
    proof {
        lemma_no_top_comma_between(t, 0, t.len() as int);
    }
    let (pa, pb) = trim_range(&s, start, b);
    let ghost before = out@;
    if pa < pb {
        let piece = string_from_range(&s, start, b);
        out.push(piece);
        assert(texts_of(out@) =~= texts_of(before) + seq![t]);
    }
    assert(texts_of(out@) =~= texts_of(before) + point_texts(t));
    out
}

} // verus!
