//! The shape shared by PostgreSQL's binary operators: `left op right`.
use vstd::prelude::*;

use crate::sql::{Chunk, Param, SQL, raw_chunk};
use crate::text::push_str;
use crate::values::PostgresValue;

verus! {

/// `s` is `left op` followed by one more chunk.
pub open spec fn operator_shape(s: Seq<Chunk>, left: Seq<Chunk>, op: Seq<char>) -> bool {
    &&& s.len() == left.len() + 2
    &&& s.take(left.len() as int) == left
    &&& raw_chunk(s[left.len() as int], op)
}

/// `c` is a parameter bound to the text `text`.
pub open spec fn text_param(c: Chunk, text: Seq<char>) -> bool {
    c matches Chunk::Param(p) && p.placeholder is None && (p.value matches Some(
        PostgresValue::Text(t),
    ) && t@ == text)
}

/// `c` is a parameter bound to the integer `i`.
pub open spec fn int_param(c: Chunk, i: i32) -> bool {
    c == Chunk::Param(Param { placeholder: None, value: Some(PostgresValue::Integer(i)) })
}

/// `c` is a parameter bound to an array of the texts `texts`, in order.
pub open spec fn text_array_param(c: Chunk, texts: Seq<Seq<char>>) -> bool {
    c matches Chunk::Param(p) && p.placeholder is None && (p.value matches Some(
        PostgresValue::Array(items),
    ) && items@.len() == texts.len() && forall|i: int|
        0 <= i < texts.len() ==> (#[trigger] items@[i] matches PostgresValue::Text(t) && t@
            == texts[i]))
}

/// The texts of the string slices `keys`.
pub open spec fn texts_of_strs(keys: Seq<&str>) -> Seq<Seq<char>> {
    keys.map_values(|k: &str| k@)
}

/// `left op` followed by the parameter `value`.
pub fn op_value(left: SQL, op: &str, value: PostgresValue) -> (res: SQL)
    ensures
        operator_shape(res@, left@, op@),
        res@.last() == Chunk::Param(Param { placeholder: None, value: Some(value) }),
{
    let ghost l = left@;
    let res = left.append(SQL::raw(op)).append(SQL::param(value));
    assert(res@.take(l.len() as int) =~= l);
    res
}

/// `left op` followed by a parameter bound to the text `text`.
pub fn op_text(left: SQL, op: &str, text: &str) -> (res: SQL)
    ensures
        operator_shape(res@, left@, op@),
        text_param(res@.last(), text@),
{
    let mut t = String::new();
    push_str(&mut t, text);
    op_value(left, op, PostgresValue::Text(t))
}

/// The array of the texts `keys`.
pub fn text_array(keys: &[&str]) -> (res: PostgresValue)
    ensures
        res matches PostgresValue::Array(items) && items@.len() == keys@.len() && forall|i: int|
            0 <= i < keys@.len() ==> (#[trigger] items@[i] matches PostgresValue::Text(t) && t@
                == keys@[i]@),
{
    let mut items: Vec<PostgresValue> = Vec::new();
    let mut i: usize = 0;
    while i < keys.len()
        invariant
            i <= keys@.len(),
            items@.len() == i,
            forall|j: int|
                0 <= j < i ==> (#[trigger] items@[j] matches PostgresValue::Text(t) && t@ == keys@[j]@),
        decreases keys@.len() - i,
    {
        let mut t = String::new();
        push_str(&mut t, keys[i]);
        items.push(PostgresValue::Text(t));
        i = i + 1;
    }
    PostgresValue::Array(items)
}

} // verus!
