//! The `bit_vec::BitVec` collection that BIT / VARBIT values travel in.
use bit_vec::BitVec;
use vstd::prelude::*;

verus! {

#[verifier::external_type_specification]
#[verifier::external_body]
#[verifier::reject_recursive_types(B)]
pub struct ExBitVec<B>(BitVec<B>);

/// The bits held by a `BitVec`, first bit first.
pub uninterp spec fn bits_of(bv: BitVec) -> Seq<bool>;

/// `BitVec::with_capacity(nbits)`: an empty bit vector.
///
/// Claims: the result holds no bits (the capacity is only a hint).
#[verifier::external_body]
pub(crate) fn bitvec_with_capacity(nbits: usize) -> (res: BitVec)
    ensures
        bits_of(res) == Seq::<bool>::empty(),
{
    BitVec::with_capacity(nbits)
}

/// `BitVec::push(elem)`: appends one bit.
///
/// Claims: the bits after the call are the bits before it followed by
/// `elem`. The crate panics when the length would pass `usize::MAX`, so
/// that is excluded.
#[verifier::external_body]
pub(crate) fn bitvec_push(bv: &mut BitVec, elem: bool)
    requires
        bits_of(*old(bv)).len() < usize::MAX,
    ensures
        bits_of(*final(bv)) == bits_of(*old(bv)).push(elem),
{
    bv.push(elem)
}

/// `BitVec::len()`: the number of bits.
///
/// Claims: the result is the length of the bit sequence.
#[verifier::external_body]
pub(crate) fn bitvec_len(bv: &BitVec) -> (res: usize)
    ensures
        res == bits_of(*bv).len(),
{
    bv.len()
}

/// `BitVec::get(i)`: the bit at position `i`.
///
/// Claims: `Some` of the `i`-th bit when `i` is below the length, else
/// `None`.
#[verifier::external_body]
pub(crate) fn bitvec_get(bv: &BitVec, i: usize) -> (res: Option<bool>)
    ensures
        i < bits_of(*bv).len() ==> res == Some(bits_of(*bv)[i as int]),
        i >= bits_of(*bv).len() ==> res is None,
{
    bv.get(i)
}

/// The text form of a bit string: one `0` or `1` per bit.
pub open spec fn bits_text(bits: Seq<bool>) -> Seq<char> {
    Seq::new(
        bits.len(),
        |i: int|
            if bits[i] {
                '1'
            } else {
                '0'
            },
    )
}

/// A bit string as its `0`/`1` text.
pub fn bits_to_text(bv: &BitVec) -> (res: String)
    ensures
        res@ == bits_text(bits_of(*bv)),
{
    let n = bitvec_len(bv);
    let mut out = String::new();
    let mut i: usize = 0;
    while i < n
        invariant
            n == bits_of(*bv).len(),
            i <= n,
            out@ == bits_text(bits_of(*bv)).take(i as int),
        decreases n - i,
    {
        let b = bitvec_get(bv, i);
        let c = match b {
            Some(true) => '1',
            _ => '0',
        };
        crate::text::push_char(&mut out, c);
        assert(bits_text(bits_of(*bv)).take(i + 1) =~= bits_text(bits_of(*bv)).take(i as int).push(
            c,
        ));
        i = i + 1;
    }
    assert(bits_text(bits_of(*bv)).take(n as int) =~= bits_text(bits_of(*bv)));
    out
}

/// A second bit vector holding the same bits.
pub fn copy_bits(bv: &BitVec) -> (res: BitVec)
    ensures
        bits_of(res) == bits_of(*bv),
{
    let n = bitvec_len(bv);
    let mut out = bitvec_with_capacity(n);
    let mut i: usize = 0;
    while i < n
        invariant
            n == bits_of(*bv).len(),
            i <= n,
            bits_of(out) == bits_of(*bv).take(i as int),
        decreases n - i,
    {
        let b = match bitvec_get(bv, i) {
            Some(b) => b,
            None => false,
        };
        bitvec_push(&mut out, b);
        assert(bits_of(*bv).take(i + 1) =~= bits_of(*bv).take(i as int).push(b));
        i = i + 1;
    }
    assert(bits_of(*bv).take(n as int) =~= bits_of(*bv));
    out
}

} // verus!
