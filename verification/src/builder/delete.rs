//! `DELETE` statements.
use vstd::prelude::*;

use super::{ExecutableState, QueryBuilder};
use crate::helpers;
use crate::sql::{Chunk, SQL, Token};

verus! {

/// State of a `DELETE` that names its table.
#[derive(Debug, Clone, Copy, Default)]
pub struct DeleteInitial;

/// State of a `DELETE` with a `WHERE` clause.
#[derive(Debug, Clone, Copy, Default)]
pub struct DeleteWhereSet;

/// State of a `DELETE` with a `RETURNING` clause.
#[derive(Debug, Clone, Copy, Default)]
pub struct DeleteReturningSet;

impl ExecutableState for DeleteInitial {

}

impl ExecutableState for DeleteWhereSet {

}

impl ExecutableState for DeleteReturningSet {

}

/// A `DELETE` statement under construction.
pub type DeleteBuilder<Schema, State> = QueryBuilder<Schema, State>;

impl<S> DeleteBuilder<S, DeleteInitial> {
    /// Deletes only the rows that meet `condition`: `WHERE condition`.
    pub fn where_(self, condition: SQL) -> (res: DeleteBuilder<S, DeleteWhereSet>)
        ensures
            res@ == self@ + seq![Chunk::Token(Token::WHERE)] + condition@,
    {
        self.advance(helpers::where_(condition))
    }

    /// Adds `RETURNING columns`.
    pub fn returning(self, columns: SQL) -> (res: DeleteBuilder<S, DeleteReturningSet>)
        ensures
            res@ == self@ + seq![Chunk::Token(Token::RETURNING)] + columns@,
    {
        self.advance(helpers::returning(columns))
    }
}

impl<S> DeleteBuilder<S, DeleteWhereSet> {
    /// Adds `RETURNING columns`.
    pub fn returning(self, columns: SQL) -> (res: DeleteBuilder<S, DeleteReturningSet>)
        ensures
            res@ == self@ + seq![Chunk::Token(Token::RETURNING)] + columns@,
    {
        self.advance(helpers::returning(columns))
    }
}

} // verus!
