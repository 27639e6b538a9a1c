//! `INSERT` statements.
use core::marker::PhantomData;
use vstd::prelude::*;

use super::{ExecutableState, QueryBuilder};
use crate::helpers::{self, Assignment, InsertRow, assignments_chunks, column_list, values_chunks};
use crate::sql::{Chunk, SQL, Token, ident_chunk, joined};

verus! {

/// State of an `INSERT` that names its table.
#[derive(Debug, Clone, Copy, Default)]
pub struct InsertInitial;

/// State of an `INSERT` whose rows are given.
#[derive(Debug, Clone, Copy, Default)]
pub struct InsertValuesSet;

/// State of an `INSERT` whose conflict handling is set.
#[derive(Debug, Clone, Copy, Default)]
pub struct InsertOnConflictSet;

/// State of an `INSERT` that updates conflicting rows.
#[derive(Debug, Clone, Copy, Default)]
pub struct InsertDoUpdateSet;

/// State of an `INSERT` with a `RETURNING` clause.
#[derive(Debug, Clone, Copy, Default)]
pub struct InsertReturningSet;

impl ExecutableState for InsertValuesSet {

}

impl ExecutableState for InsertOnConflictSet {

}

impl ExecutableState for InsertDoUpdateSet {

}

impl ExecutableState for InsertReturningSet {

}

/// An `INSERT` statement under construction.
pub type InsertBuilder<Schema, State> = QueryBuilder<Schema, State>;

/// Turns a statement that ends in an `ON CONFLICT` action into the builder
/// state that comes next.
#[derive(Debug, Clone, Copy, Default)]
pub struct PostgresOnConflictOutput;

impl PostgresOnConflictOutput {
    /// The builder after `ON CONFLICT ... DO NOTHING`, holding `sql`.
    pub fn on_conflict<S>(sql: SQL) -> (res: InsertBuilder<S, InsertOnConflictSet>)
        ensures
            res@ == sql@,
    {
        QueryBuilder::from_sql(sql)
    }

    /// The builder after `ON CONFLICT ... DO UPDATE SET ...`, holding `sql`.
    pub fn do_update<S>(sql: SQL) -> (res: InsertBuilder<S, InsertDoUpdateSet>)
        ensures
            res@ == sql@,
    {
        QueryBuilder::from_sql(sql)
    }
}

/// An `INSERT` waiting for the action to take on conflict with `target`.
#[derive(Debug)]
pub struct OnConflictBuilder<Schema> {
    sql: SQL,
    target: SQL,
    schema: PhantomData<Schema>,
}

impl<Schema> OnConflictBuilder<Schema> {
    /// The statement before `ON CONFLICT`.
    pub closed spec fn statement(&self) -> Seq<Chunk> {
        self.sql@
    }

    /// The conflict target.
    pub closed spec fn target(&self) -> Seq<Chunk> {
        self.target@
    }

    /// `ON CONFLICT target DO NOTHING`
    pub fn do_nothing(self) -> (res: InsertBuilder<Schema, InsertOnConflictSet>)
        ensures
            res@ == self.statement() + seq![Chunk::Token(Token::ON), Chunk::Token(Token::CONFLICT)]
                + self.target() + seq![Chunk::Token(Token::DO), Chunk::Token(Token::NOTHING)],
    {
        let sql = self.sql
            .push_token(Token::ON)
            .push_token(Token::CONFLICT)
            .append(self.target)
            .push_token(Token::DO)
            .push_token(Token::NOTHING);
        PostgresOnConflictOutput::on_conflict(sql)
    }

    /// `ON CONFLICT target DO UPDATE SET ...`
    pub fn do_update(self, set: Vec<Assignment>) -> (res: InsertBuilder<Schema, InsertDoUpdateSet>)
        ensures
            res@ == self.statement() + seq![Chunk::Token(Token::ON), Chunk::Token(Token::CONFLICT)]
                + self.target() + seq![Chunk::Token(Token::DO), Chunk::Token(Token::UPDATE)]
                + seq![Chunk::Token(Token::SET)] + joined(assignments_chunks(set@), Token::COMMA),
    {
        let sql = self.sql
            .push_token(Token::ON)
            .push_token(Token::CONFLICT)
            .append(self.target)
            .push_token(Token::DO)
            .push_token(Token::UPDATE)
            .append(helpers::set(set));
        PostgresOnConflictOutput::do_update(sql)
    }
}

impl<S> InsertBuilder<S, InsertInitial> {
    /// Inserts one row.
    pub fn value(self, row: InsertRow) -> (res: InsertBuilder<S, InsertValuesSet>)
        ensures
            res@ == self@ + values_chunks(seq![row]),
    {
        let mut rows = Vec::new();
        rows.push(row);
        self.values(rows)
    }

    /// Inserts `rows`; they all set the columns of the first one.
    pub fn values(self, rows: Vec<InsertRow>) -> (res: InsertBuilder<S, InsertValuesSet>)
        ensures
            res@ == self@ + values_chunks(rows@),
    {
        self.advance(helpers::values(rows))
    }

    /// Inserts the rows of `query`.
    pub fn select(self, query: SQL) -> (res: InsertBuilder<S, InsertValuesSet>)
        ensures
            res@ == self@ + query@,
    {
        self.advance(query)
    }
}

impl<S> InsertBuilder<S, InsertValuesSet> {
    /// Handles conflicts on the unique columns `columns`.
    pub fn on_conflict(self, columns: Vec<String>) -> (res: OnConflictBuilder<S>)
        ensures
            res.statement() == self@,
            res.target() == seq![Chunk::Token(Token::LPAREN)] + column_list(columns@) + seq![
                Chunk::Token(Token::RPAREN),
            ],
    {
        let target = helpers::columns_info_to_sql(columns).parens();
        OnConflictBuilder { sql: self.sql, target, schema: PhantomData }
    }

    /// Handles conflicts on the named constraint `name`.
    pub fn on_conflict_on_constraint(self, name: &str) -> (res: OnConflictBuilder<S>)
        ensures
            res.statement() == self@,
            res.target().len() == 3,
            res.target().take(2) == seq![Chunk::Token(Token::ON), Chunk::Token(Token::CONSTRAINT)],
            ident_chunk(res.target()[2], name@),
    {
        let target = SQL::token(Token::ON).push_token(Token::CONSTRAINT).append(SQL::ident(name));
        assert(target@.take(2) =~= seq![Chunk::Token(Token::ON), Chunk::Token(Token::CONSTRAINT)]);
        OnConflictBuilder { sql: self.sql, target, schema: PhantomData }
    }

    /// Ignores rows that conflict: `ON CONFLICT DO NOTHING`.
    pub fn on_conflict_do_nothing(self) -> (res: InsertBuilder<S, InsertOnConflictSet>)
        ensures
            res@ == self@ + seq![
                Chunk::Token(Token::ON),
                Chunk::Token(Token::CONFLICT),
                Chunk::Token(Token::DO),
                Chunk::Token(Token::NOTHING),
            ],
    {
        let conflict = SQL::token(Token::ON)
            .push_token(Token::CONFLICT)
            .push_token(Token::DO)
            .push_token(Token::NOTHING);
        self.advance(conflict)
    }

    /// Adds `RETURNING columns`.
    pub fn returning(self, columns: SQL) -> (res: InsertBuilder<S, InsertReturningSet>)
        ensures
            res@ == self@ + seq![Chunk::Token(Token::RETURNING)] + columns@,
    {
        self.advance(helpers::returning(columns))
    }
}

impl<S> InsertBuilder<S, InsertOnConflictSet> {
    /// Adds `RETURNING columns`.
    pub fn returning(self, columns: SQL) -> (res: InsertBuilder<S, InsertReturningSet>)
        ensures
            res@ == self@ + seq![Chunk::Token(Token::RETURNING)] + columns@,
    {
        self.advance(helpers::returning(columns))
    }
}

impl<S> InsertBuilder<S, InsertDoUpdateSet> {
    /// Updates only the conflicting rows that meet `condition`: `WHERE condition`.
    pub fn where_(self, condition: SQL) -> (res: InsertBuilder<S, InsertOnConflictSet>)
        ensures
            res@ == self@ + seq![Chunk::Token(Token::WHERE)] + condition@,
    {
        self.advance(SQL::token(Token::WHERE).append(condition))
    }

    /// Adds `RETURNING columns`.
    pub fn returning(self, columns: SQL) -> (res: InsertBuilder<S, InsertReturningSet>)
        ensures
            res@ == self@ + seq![Chunk::Token(Token::RETURNING)] + columns@,
    {
        self.advance(helpers::returning(columns))
    }
}

} // verus!
