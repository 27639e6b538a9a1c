//! Prepared statements: the text of a statement split around its parameters.
use vstd::prelude::*;

use crate::sql::{
    Chunk, Param, SQL, chunk_text, param_count, params_of, placeholder_text, render, separator,
};
use crate::text::{push_char, push_str};

verus! {

broadcast use vstd::seq_lib::group_seq_properties;

/// The text between the parameters of `s`: one segment before the first
/// parameter, one between each two, and one after the last.
pub open spec fn segments(s: Seq<Chunk>) -> Seq<Seq<char>>
    decreases s.len(),
{
    if s.len() == 0 {
        seq![seq![]]
    } else {
        let segs = segments(s.drop_last());
        let tail = segs.last() + separator(s);
        if s.last() is Param {
            segs.update(segs.len() - 1, tail).push(seq![])
        } else {
            segs.update(segs.len() - 1, tail + chunk_text(s.last(), 0))
        }
    }
}

/// The segments `segs` joined by the placeholders `$1`, `$2`, ...
pub open spec fn assemble(segs: Seq<Seq<char>>) -> Seq<char>
    decreases segs.len(),
{
    if segs.len() == 0 {
        seq![]
    } else if segs.len() == 1 {
        segs[0]
    } else {
        assemble(segs.drop_last()) + placeholder_text((segs.len() - 1) as nat) + segs.last()
    }
}

/// The text of each string of `v`.
pub open spec fn texts_of(v: Seq<String>) -> Seq<Seq<char>> {
    v.map_values(|s: String| s@)
}

proof fn lemma_assemble_extend_last(segs: Seq<Seq<char>>, x: Seq<char>)
    requires
        segs.len() >= 1,
    ensures
        assemble(segs.update(segs.len() - 1, segs.last() + x)) == assemble(segs) + x,
{
    let u = segs.update(segs.len() - 1, segs.last() + x);
    if segs.len() > 1 {
        assert(u.drop_last() == segs.drop_last());
    }
}

proof fn lemma_params_len(s: Seq<Chunk>)
    ensures
        params_of(s).len() == param_count(s),
    decreases s.len(),
{
    if s.len() > 0 {
        lemma_params_len(s.drop_last());
    }
}

/// Splitting a statement at its parameters gives one text segment more than
/// it has parameters, and joining the segments with `$1`, `$2`, ... gives
/// back exactly the statement's SQL text.
pub proof fn law_segments_reassemble(s: Seq<Chunk>)
    ensures
        segments(s).len() == param_count(s) + 1,
        assemble(segments(s)) == render(s),
    decreases s.len(),
{
    if s.len() > 0 {
        let init = s.drop_last();
        law_segments_reassemble(init);
        let segs = segments(init);
        let tail = segs.last() + separator(s);
        if s.last() is Param {
            let u = segs.update(segs.len() - 1, tail);
            lemma_assemble_extend_last(segs, separator(s));
            assert(u.push(seq![]).drop_last() == u);
            assert(assemble(u.push(seq![])) == assemble(u) + placeholder_text(u.len() as nat) + seq![]);
        } else {
            lemma_assemble_extend_last(segs, separator(s) + chunk_text(s.last(), 0));
            assert(chunk_text(s.last(), 0) == chunk_text(s.last(), param_count(init) + 1));
        }
    }
}

/// A statement split around its parameters, ready to be sent to the server.
#[derive(Debug)]
pub struct PreparedStatement {
    /// The text before, between and after the parameters.
    pub text_segments: Vec<String>,
    /// The parameters, in order.
    pub params: Vec<Param>,
    /// The whole statement text, with `$n` placeholders.
    pub sql: String,
}

/// The owned form of a [`PreparedStatement`], kept beyond the query that made it.
#[derive(Debug)]
pub struct OwnedPreparedStatement {
    /// The text before, between and after the parameters.
    pub text_segments: Vec<String>,
    /// The parameters, in order.
    pub params: Vec<Param>,
    /// The whole statement text, with `$n` placeholders.
    pub sql: String,
}

/// Splits `sql` into the text segments around its parameters.
pub fn prepare_render(sql: SQL) -> (res: PreparedStatement)
    ensures
        res.sql@ == render(sql@),
        texts_of(res.text_segments@) == segments(sql@),
        res.params@ == params_of(sql@),
        res.text_segments.len() == res.params.len() + 1,
{
    let text = sql.sql();
    let ghost all = sql@;
    let chunks = sql.into_chunks();
    let mut done: Vec<String> = Vec::new();
    let mut cur = String::new();
    let mut params: Vec<Param> = Vec::new();
    let mut first = true;
    let mut prev_glues = false;
    for c in it: chunks.into_iter()
        invariant
            it.seq() == all,
            first == (it.index() == 0),
            texts_of(done@).push(cur@) == segments(all.take(it.index() as int)),
            params@ == params_of(all.take(it.index() as int)),
            it.index() > 0 ==> prev_glues == crate::sql::glues_after(all[it.index() - 1]),
    {
        let ghost k = it.index();
        let ghost pre = all.take(k);
        let ghost now = all.take(k + 1);
        let ghost segs0 = segments(pre);
        proof {
            assert(now.drop_last() == pre);
            assert(now.last() == c);
            if k > 0 {
                assert(now[now.len() - 2] == all[k - 1]);
            }
            lemma_segments_nonempty(pre);
            assert(texts_of(done@) == segs0.drop_last());
            assert(cur@ == segs0.last());
        }
        if !first && !prev_glues && !glues_before_of(&c) {
            push_char(&mut cur, ' ');
        }
        assert(cur@ == segs0.last() + separator(now));
        let glues = glues_after_of(&c);
        match c {
            Chunk::Param(p) => {
                let finished = cur;
                done.push(finished);
                cur = String::new();
                params.push(p);
                proof {
                    assert(texts_of(done@) =~= segs0.update(segs0.len() - 1, segs0.last() + separator(now)));
                    assert(texts_of(done@).push(cur@) =~= segments(now));
                }
            },
            Chunk::Token(t) => {
                push_str(&mut cur, t.as_str());
                proof {
                    assert(cur@ == segs0.last() + separator(now) + chunk_text(now.last(), 0));
                    assert(texts_of(done@).push(cur@) =~= segments(now));
                }
            },
            Chunk::Ident(n) => {
                crate::sql::push_quoted_ident(&mut cur, n.as_str());
                proof {
                    assert(cur@ == segs0.last() + separator(now) + chunk_text(now.last(), 0));
                    assert(texts_of(done@).push(cur@) =~= segments(now));
                }
            },
            Chunk::Raw(r) => {
                push_str(&mut cur, r.as_str());
                proof {
                    assert(cur@ == segs0.last() + separator(now) + chunk_text(now.last(), 0));
                    assert(texts_of(done@).push(cur@) =~= segments(now));
                }
            },
        }
        prev_glues = glues;
        first = false;
    }
    done.push(cur);
    proof {
        assert(all.take(all.len() as int) == all);
        assert(texts_of(done@) =~= segments(all));
        law_segments_reassemble(all);
        lemma_params_len(all);
    }
    PreparedStatement { text_segments: done, params, sql: text }
}

proof fn lemma_segments_nonempty(s: Seq<Chunk>)
    ensures
        segments(s).len() >= 1,
    decreases s.len(),
{
    if s.len() > 0 {
        lemma_segments_nonempty(s.drop_last());
    }
}

fn glues_after_of(c: &Chunk) -> (res: bool)
    ensures
        res == crate::sql::glues_after(*c),
{
    crate::sql::glues_after_exec(c)
}

fn glues_before_of(c: &Chunk) -> (res: bool)
    ensures
        res == crate::sql::glues_before(*c),
{
    crate::sql::glues_before_exec(c)
}

/// A copy of the text `s`.
fn copy_text(s: &String) -> (res: String)
    ensures
        res@ == s@,
{
    let mut out = String::new();
    push_str(&mut out, s.as_str());
    out
}

impl PreparedStatement {
    /// Converts this statement into its owned form.
    pub fn into_owned(self) -> (res: OwnedPreparedStatement)
        ensures
            res.text_segments@ == self.text_segments@,
            res.params@ == self.params@,
            res.sql@ == self.sql@,
    {
        OwnedPreparedStatement { text_segments: self.text_segments, params: self.params, sql: self.sql }
    }

    /// The statement text, as `Display` writes it.
    pub fn to_text(&self) -> (res: String)
        ensures
            res@ == self.sql@,
    {
        copy_text(&self.sql)
    }
}

impl OwnedPreparedStatement {
    /// Converts this statement back into a [`PreparedStatement`].
    pub fn into_prepared(self) -> (res: PreparedStatement)
        ensures
            res.text_segments@ == self.text_segments@,
            res.params@ == self.params@,
            res.sql@ == self.sql@,
    {
        PreparedStatement { text_segments: self.text_segments, params: self.params, sql: self.sql }
    }

    /// The statement text, as `Display` writes it.
    pub fn to_text(&self) -> (res: String)
        ensures
            res@ == self.sql@,
    {
        copy_text(&self.sql)
    }
}

} // verus!
