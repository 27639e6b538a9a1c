//! `UPDATE` statements.
use vstd::prelude::*;

use super::{ExecutableState, QueryBuilder};
use crate::helpers::{self, Assignment, assignments_chunks};
use crate::sql::{Chunk, SQL, Token, joined};

verus! {

/// State of an `UPDATE` that names its table.
#[derive(Debug, Clone, Copy, Default)]
pub struct UpdateInitial;

/// State of an `UPDATE` with its `SET` clause.
#[derive(Debug, Clone, Copy, Default)]
pub struct UpdateSetClauseSet;

/// State of an `UPDATE` with a `FROM` clause.
#[derive(Debug, Clone, Copy, Default)]
pub struct UpdateFromSet;

/// State of an `UPDATE` with a `WHERE` clause.
#[derive(Debug, Clone, Copy, Default)]
pub struct UpdateWhereSet;

/// State of an `UPDATE` with a `RETURNING` clause.
#[derive(Debug, Clone, Copy, Default)]
pub struct UpdateReturningSet;

impl ExecutableState for UpdateSetClauseSet {

}

impl ExecutableState for UpdateFromSet {

}

impl ExecutableState for UpdateWhereSet {

}

impl ExecutableState for UpdateReturningSet {

}

/// An `UPDATE` statement under construction.
pub type UpdateBuilder<Schema, State> = QueryBuilder<Schema, State>;

impl<S> UpdateBuilder<S, UpdateInitial> {
    /// Sets the columns: `SET "c1" = v1, "c2" = v2, ...`.
    pub fn set(self, values: Vec<Assignment>) -> (res: UpdateBuilder<S, UpdateSetClauseSet>)
        ensures
            res@ == self@ + seq![Chunk::Token(Token::SET)] + joined(assignments_chunks(values@), Token::COMMA),
    {
        self.advance(helpers::set(values))
    }
}

impl<S> UpdateBuilder<S, UpdateSetClauseSet> {
    /// Adds `FROM source`, to read other tables in the update.
    pub fn from(self, source: SQL) -> (res: UpdateBuilder<S, UpdateFromSet>)
        ensures
            res@ == self@ + seq![Chunk::Token(Token::FROM)] + source@,
    {
        self.advance(helpers::from(source))
    }

    /// Adds `WHERE condition`.
    pub fn where_(self, condition: SQL) -> (res: UpdateBuilder<S, UpdateWhereSet>)
        ensures
            res@ == self@ + seq![Chunk::Token(Token::WHERE)] + condition@,
    {
        self.advance(helpers::where_(condition))
    }

    /// Adds `RETURNING columns`.
    pub fn returning(self, columns: SQL) -> (res: UpdateBuilder<S, UpdateReturningSet>)
        ensures
            res@ == self@ + seq![Chunk::Token(Token::RETURNING)] + columns@,
    {
        self.advance(helpers::returning(columns))
    }
}

impl<S> UpdateBuilder<S, UpdateFromSet> {
    /// Adds `WHERE condition`.
    pub fn where_(self, condition: SQL) -> (res: UpdateBuilder<S, UpdateWhereSet>)
        ensures
            res@ == self@ + seq![Chunk::Token(Token::WHERE)] + condition@,
    {
        self.advance(helpers::where_(condition))
    }

    /// Adds `RETURNING columns`.
    pub fn returning(self, columns: SQL) -> (res: UpdateBuilder<S, UpdateReturningSet>)
        ensures
            res@ == self@ + seq![Chunk::Token(Token::RETURNING)] + columns@,
    {
        self.advance(helpers::returning(columns))
    }
}

impl<S> UpdateBuilder<S, UpdateWhereSet> {
    /// Adds `RETURNING columns`.
    pub fn returning(self, columns: SQL) -> (res: UpdateBuilder<S, UpdateReturningSet>)
        ensures
            res@ == self@ + seq![Chunk::Token(Token::RETURNING)] + columns@,
    {
        self.advance(helpers::returning(columns))
    }
}

} // verus!
