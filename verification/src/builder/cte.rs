//! Common table expressions: `name AS (query)`.
use vstd::prelude::*;

use crate::sql::{Chunk, SQL, Token, ident_chunk};

verus! {

/// A definition that can follow `WITH`.
pub trait CTEDefinition: Sized {
    /// The chunks of the definition.
    spec fn definition(&self) -> Seq<Chunk>;

    /// The definition, e.g. `"name" AS (query)`.
    fn cte_definition(self) -> (res: SQL)
        ensures
            res@ == self.definition(),
    ;
}

/// A named query usable in a `WITH` clause: `"name" AS (query)`.
#[derive(Debug)]
pub struct CTEView {
    name: SQL,
    query: SQL,
}

impl CTEView {
    /// The chunks that name the view.
    pub closed spec fn name_chunks(&self) -> Seq<Chunk> {
        self.name@
    }

    /// The chunks of the view's query.
    pub closed spec fn query_chunks(&self) -> Seq<Chunk> {
        self.query@
    }

    /// The view `name` defined by `query`.
    pub fn new(name: &str, query: SQL) -> (res: CTEView)
        ensures
            res.name_chunks().len() == 1,
            ident_chunk(res.name_chunks()[0], name@),
            res.query_chunks() == query@,
    {
        CTEView { name: SQL::ident(name), query }
    }
}

impl CTEDefinition for CTEView {
    open spec fn definition(&self) -> Seq<Chunk> {
        self.name_chunks() + seq![Chunk::Token(Token::AS), Chunk::Token(Token::LPAREN)] + self.query_chunks()
            + seq![Chunk::Token(Token::RPAREN)]
    }

    fn cte_definition(self) -> (res: SQL) {
        self.name.push_token(Token::AS).append(self.query.parens())
    }
}

} // verus!
