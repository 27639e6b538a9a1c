//! SQL fragments: sequences of keywords, quoted identifiers, raw text and
//! bound parameters, and the PostgreSQL text they render to.
//!
//! Rendering joins the chunks with single spaces, except after `(` or `.`,
//! before `,`, `)` or `.`, and next to raw text that already begins or ends
//! with a space. Parameters render as `$1`, `$2`, ... in order of appearance.
use vstd::prelude::*;

use crate::text::{chars_of, push_char, push_str};
use crate::values::{PostgresValue, nat_text, push_nat_text};

verus! {

broadcast use vstd::seq_lib::group_seq_properties;

/// A keyword or a punctuation mark of SQL.
#[allow(non_camel_case_types)]
#[derive(Debug, Clone, Copy, PartialEq, Eq, Structural)]
pub enum Token {
    /// `SELECT`
    SELECT,
    /// `DISTINCT`
    DISTINCT,
    /// `ON`
    ON,
    /// `FROM`
    FROM,
    /// `WHERE`
    WHERE,
    /// `GROUP`
    GROUP,
    /// `BY`
    BY,
    /// `HAVING`
    HAVING,
    /// `ORDER`
    ORDER,
    /// `LIMIT`
    LIMIT,
    /// `OFFSET`
    OFFSET,
    /// `UNION`
    UNION,
    /// `INTERSECT`
    INTERSECT,
    /// `EXCEPT`
    EXCEPT,
    /// `ALL`
    ALL,
    /// `INSERT`
    INSERT,
    /// `INTO`
    INTO,
    /// `VALUES`
    VALUES,
    /// `DEFAULT`
    DEFAULT,
    /// `UPDATE`
    UPDATE,
    /// `SET`
    SET,
    /// `DELETE`
    DELETE,
    /// `RETURNING`
    RETURNING,
    /// `CONFLICT`
    CONFLICT,
    /// `CONSTRAINT`
    CONSTRAINT,
    /// `DO`
    DO,
    /// `NOTHING`
    NOTHING,
    /// `FOR`
    FOR,
    /// `SHARE`
    SHARE,
    /// `NO`
    NO,
    /// `KEY`
    KEY,
    /// `OF`
    OF,
    /// `NOWAIT`
    NOWAIT,
    /// `SKIP`
    SKIP,
    /// `LOCKED`
    LOCKED,
    /// `JOIN`
    JOIN,
    /// `INNER`
    INNER,
    /// `LEFT`
    LEFT,
    /// `RIGHT`
    RIGHT,
    /// `FULL`
    FULL,
    /// `OUTER`
    OUTER,
    /// `NATURAL`
    NATURAL,
    /// `CROSS`
    CROSS,
    /// `USING`
    USING,
    /// `WITH`
    WITH,
    /// `AS`
    AS,
    /// `REFRESH`
    REFRESH,
    /// `MATERIALIZED`
    MATERIALIZED,
    /// `VIEW`
    VIEW,
    /// `CONCURRENTLY`
    CONCURRENTLY,
    /// `DATA`
    DATA,
    /// `NOT`
    NOT,
    /// `,`
    COMMA,
    /// `(`
    LPAREN,
    /// `)`
    RPAREN,
    /// `.`
    DOT,
    /// `=`
    EQ,
    /// `*`
    STAR,
}

/// The text of a token.
pub open spec fn token_text(t: Token) -> Seq<char> {
    match t {
        Token::SELECT => "SELECT"@,
        Token::DISTINCT => "DISTINCT"@,
        Token::ON => "ON"@,
        Token::FROM => "FROM"@,
        Token::WHERE => "WHERE"@,
        Token::GROUP => "GROUP"@,
        Token::BY => "BY"@,
        Token::HAVING => "HAVING"@,
        Token::ORDER => "ORDER"@,
        Token::LIMIT => "LIMIT"@,
        Token::OFFSET => "OFFSET"@,
        Token::UNION => "UNION"@,
        Token::INTERSECT => "INTERSECT"@,
        Token::EXCEPT => "EXCEPT"@,
        Token::ALL => "ALL"@,
        Token::INSERT => "INSERT"@,
        Token::INTO => "INTO"@,
        Token::VALUES => "VALUES"@,
        Token::DEFAULT => "DEFAULT"@,
        Token::UPDATE => "UPDATE"@,
        Token::SET => "SET"@,
        Token::DELETE => "DELETE"@,
        Token::RETURNING => "RETURNING"@,
        Token::CONFLICT => "CONFLICT"@,
        Token::CONSTRAINT => "CONSTRAINT"@,
        Token::DO => "DO"@,
        Token::NOTHING => "NOTHING"@,
        Token::FOR => "FOR"@,
        Token::SHARE => "SHARE"@,
        Token::NO => "NO"@,
        Token::KEY => "KEY"@,
        Token::OF => "OF"@,
        Token::NOWAIT => "NOWAIT"@,
        Token::SKIP => "SKIP"@,
        Token::LOCKED => "LOCKED"@,
        Token::JOIN => "JOIN"@,
        Token::INNER => "INNER"@,
        Token::LEFT => "LEFT"@,
        Token::RIGHT => "RIGHT"@,
        Token::FULL => "FULL"@,
        Token::OUTER => "OUTER"@,
        Token::NATURAL => "NATURAL"@,
        Token::CROSS => "CROSS"@,
        Token::USING => "USING"@,
        Token::WITH => "WITH"@,
        Token::AS => "AS"@,
        Token::REFRESH => "REFRESH"@,
        Token::MATERIALIZED => "MATERIALIZED"@,
        Token::VIEW => "VIEW"@,
        Token::CONCURRENTLY => "CONCURRENTLY"@,
        Token::DATA => "DATA"@,
        Token::NOT => "NOT"@,
        Token::COMMA => ","@,
        Token::LPAREN => "("@,
        Token::RPAREN => ")"@,
        Token::DOT => "."@,
        Token::EQ => "="@,
        Token::STAR => "*"@,
    }
}

impl Token {
    /// The text of this token, e.g. `SELECT` or `,`.
    pub fn as_str(&self) -> (res: &'static str)
        ensures
            res@ == token_text(*self),
    {
        match self {
            Token::SELECT => "SELECT",
            Token::DISTINCT => "DISTINCT",
            Token::ON => "ON",
            Token::FROM => "FROM",
            Token::WHERE => "WHERE",
            Token::GROUP => "GROUP",
            Token::BY => "BY",
            Token::HAVING => "HAVING",
            Token::ORDER => "ORDER",
            Token::LIMIT => "LIMIT",
            Token::OFFSET => "OFFSET",
            Token::UNION => "UNION",
            Token::INTERSECT => "INTERSECT",
            Token::EXCEPT => "EXCEPT",
            Token::ALL => "ALL",
            Token::INSERT => "INSERT",
            Token::INTO => "INTO",
            Token::VALUES => "VALUES",
            Token::DEFAULT => "DEFAULT",
            Token::UPDATE => "UPDATE",
            Token::SET => "SET",
            Token::DELETE => "DELETE",
            Token::RETURNING => "RETURNING",
            Token::CONFLICT => "CONFLICT",
            Token::CONSTRAINT => "CONSTRAINT",
            Token::DO => "DO",
            Token::NOTHING => "NOTHING",
            Token::FOR => "FOR",
            Token::SHARE => "SHARE",
            Token::NO => "NO",
            Token::KEY => "KEY",
            Token::OF => "OF",
            Token::NOWAIT => "NOWAIT",
            Token::SKIP => "SKIP",
            Token::LOCKED => "LOCKED",
            Token::JOIN => "JOIN",
            Token::INNER => "INNER",
            Token::LEFT => "LEFT",
            Token::RIGHT => "RIGHT",
            Token::FULL => "FULL",
            Token::OUTER => "OUTER",
            Token::NATURAL => "NATURAL",
            Token::CROSS => "CROSS",
            Token::USING => "USING",
            Token::WITH => "WITH",
            Token::AS => "AS",
            Token::REFRESH => "REFRESH",
            Token::MATERIALIZED => "MATERIALIZED",
            Token::VIEW => "VIEW",
            Token::CONCURRENTLY => "CONCURRENTLY",
            Token::DATA => "DATA",
            Token::NOT => "NOT",
            Token::COMMA => ",",
            Token::LPAREN => "(",
            Token::RPAREN => ")",
            Token::DOT => ".",
            Token::EQ => "=",
            Token::STAR => "*",
        }
    }
}

/// A bound parameter: a value, a named placeholder to be bound later, or both.
#[derive(Debug)]
pub struct Param {
    /// Name of the placeholder, if the parameter is bound by name.
    pub placeholder: Option<String>,
    /// The bound value, if it is known already.
    pub value: Option<PostgresValue>,
}

/// One piece of an SQL fragment.
#[derive(Debug)]
pub enum Chunk {
    /// A keyword or punctuation mark.
    Token(Token),
    /// An identifier, rendered in double quotes.
    Ident(String),
    /// Text rendered verbatim.
    Raw(String),
    /// A bound parameter, rendered as `$n`.
    Param(Param),
}

/// `c` is the identifier `name`.
pub open spec fn ident_chunk(c: Chunk, name: Seq<char>) -> bool {
    c matches Chunk::Ident(n) && n@ == name
}

/// `c` is the raw text `text`.
pub open spec fn raw_chunk(c: Chunk, text: Seq<char>) -> bool {
    c matches Chunk::Raw(r) && r@ == text
}

/// `s` with every double quote doubled.
pub open spec fn escape_quotes(s: Seq<char>) -> Seq<char>
    decreases s.len(),
{
    if s.len() == 0 {
        seq![]
    } else if s.last() == '"' {
        escape_quotes(s.drop_last()) + seq!['"', '"']
    } else {
        escape_quotes(s.drop_last()).push(s.last())
    }
}

/// The quoted form of an identifier: `"name"`.
pub open spec fn quoted_ident(name: Seq<char>) -> Seq<char> {
    seq!['"'] + escape_quotes(name) + seq!['"']
}

/// The text of the parameter placeholder with 1-based position `ordinal`.
pub open spec fn placeholder_text(ordinal: nat) -> Seq<char> {
    seq!['$'] + nat_text(ordinal)
}

/// The text of one chunk; a parameter renders with its position `ordinal`.
pub open spec fn chunk_text(c: Chunk, ordinal: nat) -> Seq<char> {
    match c {
        Chunk::Token(t) => token_text(t),
        Chunk::Ident(n) => quoted_ident(n@),
        Chunk::Raw(r) => r@,
        Chunk::Param(_) => placeholder_text(ordinal),
    }
}

/// No space follows `c`.
pub open spec fn glues_after(c: Chunk) -> bool {
    ||| c matches Chunk::Token(t) && (t == Token::LPAREN || t == Token::DOT)
    ||| c matches Chunk::Raw(r) && (r@.len() == 0 || r@.last() == ' ')
}

/// No space precedes `c`.
pub open spec fn glues_before(c: Chunk) -> bool {
    ||| c matches Chunk::Token(t) && (t == Token::COMMA || t == Token::RPAREN || t == Token::DOT)
    ||| c matches Chunk::Raw(r) && (r@.len() == 0 || r@[0] == ' ')
}

/// A space separates `prev` from `next`.
pub open spec fn needs_space(prev: Chunk, next: Chunk) -> bool {
    !glues_after(prev) && !glues_before(next)
}

/// The number of parameters in `s`.
pub open spec fn param_count(s: Seq<Chunk>) -> nat
    decreases s.len(),
{
    if s.len() == 0 {
        0
    } else if s.last() is Param {
        param_count(s.drop_last()) + 1
    } else {
        param_count(s.drop_last())
    }
}

/// The parameters of `s`, in order.
pub open spec fn params_of(s: Seq<Chunk>) -> Seq<Param>
    decreases s.len(),
{
    if s.len() == 0 {
        seq![]
    } else {
        match s.last() {
            Chunk::Param(p) => params_of(s.drop_last()).push(p),
            _ => params_of(s.drop_last()),
        }
    }
}

/// The text between the last two chunks of `s`.
pub open spec fn separator(s: Seq<Chunk>) -> Seq<char> {
    if s.len() >= 2 && needs_space(s[s.len() - 2], s.last()) {
        seq![' ']
    } else {
        seq![]
    }
}

/// The PostgreSQL text of the chunks `s`.
pub open spec fn render(s: Seq<Chunk>) -> Seq<char>
    decreases s.len(),
{
    if s.len() == 0 {
        seq![]
    } else {
        render(s.drop_last()) + separator(s) + chunk_text(s.last(), param_count(s.drop_last()) + 1)
    }
}

/// The chunks `parts`, with `sep` between each two of them.
pub open spec fn joined(parts: Seq<Seq<Chunk>>, sep: Token) -> Seq<Chunk>
    decreases parts.len(),
{
    if parts.len() == 0 {
        seq![]
    } else if parts.len() == 1 {
        parts[0]
    } else {
        joined(parts.drop_last(), sep).push(Chunk::Token(sep)) + parts.last()
    }
}

/// An SQL fragment.
#[derive(Debug)]
pub struct SQL {
    chunks: Vec<Chunk>,
}

impl View for SQL {
    type V = Seq<Chunk>;

    closed spec fn view(&self) -> Seq<Chunk> {
        self.chunks@
    }
}

/// The chunks of each fragment of `parts`.
pub open spec fn views_of(parts: Seq<SQL>) -> Seq<Seq<Chunk>> {
    parts.map_values(|p: SQL| p@)
}

/// Appends the quoted form of `name`.
pub(crate) fn push_quoted_ident(out: &mut String, name: &str)
    ensures
        final(out)@ == old(out)@ + quoted_ident(name@),
{
    let chars = chars_of(name);
    push_char(out, '"');
    let ghost start = old(out)@;
    let mut i: usize = 0;
    while i < chars.len()
        invariant
            i <= chars@.len(),
            chars@ == name@,
            out@ == start + seq!['"'] + escape_quotes(chars@.take(i as int)),
        decreases chars@.len() - i,
    {
        let c = chars[i];
        assert(chars@.take(i + 1).drop_last() == chars@.take(i as int));
        if c == '"' {
            push_char(out, '"');
            push_char(out, '"');
        } else {
            push_char(out, c);
        }
        i = i + 1;
    }
    assert(chars@.take(chars@.len() as int) == chars@);
    push_char(out, '"');
}

pub(crate) fn glues_after_exec(c: &Chunk) -> (res: bool)
    ensures
        res == glues_after(*c),
{
    match c {
        Chunk::Token(t) => *t == Token::LPAREN || *t == Token::DOT,
        Chunk::Raw(r) => {
            let s = r.as_str();
            let n = s.unicode_len();
            n == 0 || s.get_char(n - 1) == ' '
        },
        _ => false,
    }
}

pub(crate) fn glues_before_exec(c: &Chunk) -> (res: bool)
    ensures
        res == glues_before(*c),
{
    match c {
        Chunk::Token(t) => *t == Token::COMMA || *t == Token::RPAREN || *t == Token::DOT,
        Chunk::Raw(r) => {
            let s = r.as_str();
            let n = s.unicode_len();
            n == 0 || s.get_char(0) == ' '
        },
        _ => false,
    }
}

/// Appends the text of `c`, a parameter rendering with position `ordinal`.
fn push_chunk_text(out: &mut String, c: &Chunk, ordinal: u64)
    ensures
        final(out)@ == old(out)@ + chunk_text(*c, ordinal as nat),
{
    match c {
        Chunk::Token(t) => push_str(out, t.as_str()),
        Chunk::Ident(n) => push_quoted_ident(out, n.as_str()),
        Chunk::Raw(r) => push_str(out, r.as_str()),
        Chunk::Param(_) => {
            push_char(out, '$');
            push_nat_text(out, ordinal);
        },
    }
}

impl SQL {
    /// The empty fragment.
    pub fn empty() -> (res: SQL)
        ensures
            res@ == Seq::<Chunk>::empty(),
    {
        SQL { chunks: Vec::new() }
    }

    /// The fragment of the single chunk `c`.
    pub fn chunk(c: Chunk) -> (res: SQL)
        ensures
            res@ == seq![c],
    {
        let mut chunks = Vec::new();
        chunks.push(c);
        SQL { chunks }
    }

    /// The fragment of one token.
    pub fn token(t: Token) -> (res: SQL)
        ensures
            res@ == seq![Chunk::Token(t)],
    {
        SQL::chunk(Chunk::Token(t))
    }

    /// The fragment of the tokens `ts`, in order.
    pub fn tokens(ts: &[Token]) -> (res: SQL)
        ensures
            res@ == ts@.map_values(|t: Token| Chunk::Token(t)),
    {
        let mut chunks: Vec<Chunk> = Vec::new();
        let mut i: usize = 0;
        while i < ts.len()
            invariant
                i <= ts@.len(),
                chunks@ == ts@.take(i as int).map_values(|t: Token| Chunk::Token(t)),
            decreases ts@.len() - i,
        {
            chunks.push(Chunk::Token(ts[i]));
            i = i + 1;
            assert(chunks@ =~= ts@.take(i as int).map_values(|t: Token| Chunk::Token(t)));
        }
        assert(ts@.take(ts@.len() as int) == ts@);
        SQL { chunks }
    }

    /// The fragment of one quoted identifier.
    pub fn ident(name: &str) -> (res: SQL)
        ensures
            res@.len() == 1,
            ident_chunk(res@[0], name@),
    {
        let mut n = String::new();
        push_str(&mut n, name);
        SQL::chunk(Chunk::Ident(n))
    }

    /// The fragment of verbatim text.
    pub fn raw(text: &str) -> (res: SQL)
        ensures
            res@.len() == 1,
            raw_chunk(res@[0], text@),
    {
        let mut r = String::new();
        push_str(&mut r, text);
        SQL::chunk(Chunk::Raw(r))
    }

    /// The fragment of one parameter bound to `value`.
    pub fn param(value: PostgresValue) -> (res: SQL)
        ensures
            res@ == seq![Chunk::Param(Param { placeholder: None, value: Some(value) })],
    {
        SQL::chunk(Chunk::Param(Param { placeholder: None, value: Some(value) }))
    }

    /// The fragment of one parameter named `name`, bound later.
    pub fn placeholder(name: &str) -> (res: SQL)
        ensures
            res@.len() == 1,
            res@[0] matches Chunk::Param(p) && p.value is None && (p.placeholder matches Some(n) && n@ == name@),
    {
        let mut n = String::new();
        push_str(&mut n, name);
        SQL::chunk(Chunk::Param(Param { placeholder: Some(n), value: None }))
    }

    /// The number of chunks.
    pub fn len(&self) -> (res: usize)
        ensures
            res == self@.len(),
    {
        self.chunks.len()
    }

    /// Whether the fragment has no chunk.
    pub fn is_empty(&self) -> (res: bool)
        ensures
            res == (self@.len() == 0),
    {
        self.chunks.len() == 0
    }

    /// This fragment followed by the chunk `c`.
    pub fn push(self, c: Chunk) -> (res: SQL)
        ensures
            res@ == self@.push(c),
    {
        let mut chunks = self.chunks;
        chunks.push(c);
        SQL { chunks }
    }

    /// This fragment followed by the token `t`.
    pub fn push_token(self, t: Token) -> (res: SQL)
        ensures
            res@ == self@.push(Chunk::Token(t)),
    {
        self.push(Chunk::Token(t))
    }

    /// This fragment followed by `other`.
    pub fn append(self, other: SQL) -> (res: SQL)
        ensures
            res@ == self@ + other@,
    {
        let mut chunks = self.chunks;
        let mut rest = other.chunks;
        chunks.append(&mut rest);
        SQL { chunks }
    }

    /// This fragment in parentheses.
    pub fn parens(self) -> (res: SQL)
        ensures
            res@ == seq![Chunk::Token(Token::LPAREN)] + self@ + seq![Chunk::Token(Token::RPAREN)],
    {
        SQL::token(Token::LPAREN).append(self).push_token(Token::RPAREN)
    }

    /// The fragments `parts`, with the token `sep` between each two of them.
    pub fn join(parts: Vec<SQL>, sep: Token) -> (res: SQL)
        ensures
            res@ == joined(views_of(parts@), sep),
    {
        let ghost all = parts@;
        let mut out = SQL::empty();
        let mut first = true;
        for p in it: parts.into_iter()
            invariant
                it.seq() == all,
                first == (it.index() == 0),
                out@ == joined(views_of(all.take(it.index() as int)), sep),
        {
            let ghost k = it.index();
            assert(views_of(all.take(k + 1)).drop_last() =~= views_of(all.take(k)));
            if first {
                out = p;
            } else {
                out = out.push_token(sep).append(p);
            }
            first = false;
        }
        assert(all.take(all.len() as int) == all);
        out
    }

    /// The PostgreSQL text of this fragment.
    pub fn sql(&self) -> (res: String)
        ensures
            res@ == render(self@),
    {
        let mut out = String::new();
        let mut count: usize = 0;
        let mut i: usize = 0;
        while i < self.chunks.len()
            invariant
                i <= self.chunks@.len(),
                count <= i,
                count == param_count(self.chunks@.take(i as int)),
                out@ == render(self.chunks@.take(i as int)),
            decreases self.chunks@.len() - i,
        {
            let ghost pre = self.chunks@.take(i as int);
            let ghost cur = self.chunks@.take(i + 1);
            assert(cur.drop_last() == pre);
            assert(cur.last() == self.chunks@[i as int]);
            if i > 0 {
                assert(cur[cur.len() - 2] == self.chunks@[i - 1]);
                if !glues_after_exec(&self.chunks[i - 1]) && !glues_before_exec(&self.chunks[i]) {
                    push_char(&mut out, ' ');
                }
            }
            push_chunk_text(&mut out, &self.chunks[i], (count + 1) as u64);
            if let Chunk::Param(_) = &self.chunks[i] {
                count = count + 1;
            }
            i = i + 1;
        }
        assert(self.chunks@.take(self.chunks@.len() as int) == self.chunks@);
        out
    }

    /// The number of parameters of this fragment.
    pub fn param_count(&self) -> (res: usize)
        ensures
            res == param_count(self@),
    {
        let mut count: usize = 0;
        let mut i: usize = 0;
        while i < self.chunks.len()
            invariant
                i <= self.chunks@.len(),
                count <= i,
                count == param_count(self.chunks@.take(i as int)),
            decreases self.chunks@.len() - i,
        {
            assert(self.chunks@.take(i + 1).drop_last() == self.chunks@.take(i as int));
            if let Chunk::Param(_) = &self.chunks[i] {
                count = count + 1;
            }
            i = i + 1;
        }
        assert(self.chunks@.take(self.chunks@.len() as int) == self.chunks@);
        count
    }

    /// The parameters of this fragment, in order.
    pub fn into_params(self) -> (res: Vec<Param>)
        ensures
            res@ == params_of(self@),
    {
        let ghost all = self@;
        let mut out: Vec<Param> = Vec::new();
        for c in it: self.chunks.into_iter()
            invariant
                it.seq() == all,
                out@ == params_of(all.take(it.index() as int)),
        {
            let ghost k = it.index();
            assert(all.take(k + 1).drop_last() =~= all.take(k));
            if let Chunk::Param(p) = c {
                out.push(p);
            }
        }
        assert(all.take(all.len() as int) == all);
        out
    }

    /// The chunks of this fragment.
    pub fn into_chunks(self) -> (res: Vec<Chunk>)
        ensures
            res@ == self@,
    {
        self.chunks
    }
}

/// Appending one fragment to another keeps every parameter of both, in
/// order: those of the first, then those of the second.
pub proof fn law_append_keeps_params(a: Seq<Chunk>, b: Seq<Chunk>)
    ensures
        params_of(a + b) == params_of(a) + params_of(b),
        param_count(a + b) == param_count(a) + param_count(b),
    decreases b.len(),
{
    if b.len() == 0 {
        assert(a + b =~= a);
        assert(params_of(a) + params_of(b) =~= params_of(a));
    } else {
        law_append_keeps_params(a, b.drop_last());
        assert((a + b).drop_last() =~= a + b.drop_last());
        assert((a + b).last() == b.last());
    }
}

} // verus!
