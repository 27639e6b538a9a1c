//! Query builders for PostgreSQL statements.
//!
//! A [`QueryBuilder`] holds the statement built so far and, as a type
//! parameter, the clause it has reached; each clause method is offered only
//! in the states where SQL allows that clause next.

pub mod cte;
pub mod delete;
pub mod insert;
pub mod prepared;
pub mod refresh;
pub mod select;
pub mod update;

use core::marker::PhantomData;
use vstd::prelude::*;

use crate::helpers;
use crate::relation::{PostgresTable, names_relation};
use crate::sql::{Chunk, SQL, Token};

pub use self::cte::{CTEDefinition, CTEView};
pub use self::delete::{DeleteBuilder, DeleteInitial, DeleteReturningSet, DeleteWhereSet};
pub use self::insert::{
    InsertBuilder, InsertDoUpdateSet, InsertInitial, InsertOnConflictSet, InsertReturningSet,
    InsertValuesSet, OnConflictBuilder, PostgresOnConflictOutput,
};
pub use self::refresh::{
    RefreshConcurrently, RefreshInitial, RefreshMaterializedView, RefreshWithNoData,
    refresh_materialized_view,
};
pub use self::select::{
    AsCteState, ForLockableState, SelectBuilder, SelectForSet, SelectFromSet, SelectGroupSet,
    SelectInitial, SelectJoinSet, SelectLimitSet, SelectOffsetSet, SelectOrderSet, SelectSetOpSet,
    SelectWhereSet,
};
pub use self::update::{
    UpdateBuilder, UpdateFromSet, UpdateInitial, UpdateReturningSet, UpdateSetClauseSet,
    UpdateWhereSet,
};

verus! {

/// The state of a builder that has not started a statement.
#[derive(Debug, Clone, Copy, Default)]
pub struct BuilderInit;

/// The state of a builder after one or more `WITH` definitions.
#[derive(Debug, Clone, Copy, Default)]
pub struct CTEInit;

/// States in which the statement built so far can be executed.
pub trait ExecutableState {

}

impl ExecutableState for CTEInit {

}

/// `res` is `prefix` followed by more chunks.
pub open spec fn extends(res: Seq<Chunk>, prefix: Seq<Chunk>) -> bool {
    res.len() >= prefix.len() && res.take(prefix.len() as int) == prefix
}

/// The chunks of `res` after `prefix`.
pub open spec fn added(res: Seq<Chunk>, prefix: Seq<Chunk>) -> Seq<Chunk> {
    res.skip(prefix.len() as int)
}

/// A statement under construction, in state `State`.
#[derive(Debug)]
pub struct QueryBuilder<Schema = (), State = ()> {
    sql: SQL,
    schema: PhantomData<Schema>,
    state: PhantomData<State>,
}

impl<Schema, State> View for QueryBuilder<Schema, State> {
    type V = Seq<Chunk>;

    closed spec fn view(&self) -> Seq<Chunk> {
        self.sql@
    }
}

impl<Schema, State> QueryBuilder<Schema, State> {
    /// A builder in state `State` that holds `sql`.
    pub fn from_sql(sql: SQL) -> (res: QueryBuilder<Schema, State>)
        ensures
            res@ == sql@,
    {
        QueryBuilder { sql, schema: PhantomData, state: PhantomData }
    }

    /// This builder's statement moved into state `Next`, followed by `more`.
    pub(crate) fn advance<Next>(self, more: SQL) -> (res: QueryBuilder<Schema, Next>)
        ensures
            res@ == self@ + more@,
    {
        QueryBuilder::from_sql(self.sql.append(more))
    }

    /// The statement built so far.
    pub fn to_sql(self) -> (res: SQL)
        ensures
            res@ == self@,
    {
        self.sql
    }

    /// The PostgreSQL text of the statement built so far.
    pub fn sql(&self) -> (res: String)
        ensures
            res@ == crate::sql::render(self@),
    {
        self.sql.sql()
    }
}

impl QueryBuilder {
    /// A builder for statements over the schema `S`.
    pub fn new<S>() -> (res: QueryBuilder<S, BuilderInit>)
        ensures
            res@ == Seq::<Chunk>::empty(),
    {
        QueryBuilder::from_sql(SQL::empty())
    }
}

impl<Schema> QueryBuilder<Schema, BuilderInit> {
    /// Starts `SELECT columns`.
    pub fn select(&self, columns: SQL) -> (res: SelectBuilder<Schema, SelectInitial>)
        ensures
            res@ == seq![Chunk::Token(Token::SELECT)] + columns@,
    {
        QueryBuilder::from_sql(helpers::select(columns))
    }

    /// Starts `SELECT DISTINCT columns`, which drops duplicate rows.
    pub fn select_distinct(&self, columns: SQL) -> (res: SelectBuilder<Schema, SelectInitial>)
        ensures
            res@ == seq![Chunk::Token(Token::SELECT), Chunk::Token(Token::DISTINCT)] + columns@,
    {
        QueryBuilder::from_sql(helpers::select_distinct(columns))
    }

    /// Starts `SELECT DISTINCT ON (on) columns`.
    pub fn select_distinct_on(&self, on: SQL, columns: SQL) -> (res: SelectBuilder<Schema, SelectInitial>)
        ensures
            res@ == seq![
                Chunk::Token(Token::SELECT),
                Chunk::Token(Token::DISTINCT),
                Chunk::Token(Token::ON),
                Chunk::Token(Token::LPAREN),
            ] + on@ + seq![Chunk::Token(Token::RPAREN)] + columns@,
    {
        QueryBuilder::from_sql(helpers::select_distinct_on(on, columns))
    }

    /// Starts `INSERT INTO table`.
    pub fn insert<T: PostgresTable>(&self, table: &T) -> (res: InsertBuilder<Schema, InsertInitial>)
        ensures
            res@.len() >= 2,
            res@.take(2) == seq![Chunk::Token(Token::INSERT), Chunk::Token(Token::INTO)],
            names_relation(res@.skip(2), table.spec_name(), table.spec_schema()),
    {
        QueryBuilder::from_sql(helpers::insert(table))
    }

    /// Starts `UPDATE table`.
    pub fn update<T: PostgresTable>(&self, table: &T) -> (res: UpdateBuilder<Schema, UpdateInitial>)
        ensures
            res@.len() >= 1,
            res@[0] == Chunk::Token(Token::UPDATE),
            names_relation(res@.skip(1), table.spec_name(), table.spec_schema()),
    {
        QueryBuilder::from_sql(helpers::update(table))
    }

    /// Starts `DELETE FROM table`.
    pub fn delete<T: PostgresTable>(&self, table: &T) -> (res: DeleteBuilder<Schema, DeleteInitial>)
        ensures
            res@.len() >= 2,
            res@.take(2) == seq![Chunk::Token(Token::DELETE), Chunk::Token(Token::FROM)],
            names_relation(res@.skip(2), table.spec_name(), table.spec_schema()),
    {
        QueryBuilder::from_sql(helpers::delete(table))
    }

    /// Starts `WITH definition`.
    pub fn with<C: CTEDefinition>(&self, cte: C) -> (res: QueryBuilder<Schema, CTEInit>)
        ensures
            res@ == seq![Chunk::Token(Token::WITH)] + cte.definition(),
    {
        QueryBuilder::from_sql(SQL::token(Token::WITH).append(cte.cte_definition()))
    }
}

impl<Schema> QueryBuilder<Schema, CTEInit> {
    /// Continues with `SELECT columns` after the definitions.
    pub fn select(self, columns: SQL) -> (res: SelectBuilder<Schema, SelectInitial>)
        ensures
            res@ == self@ + seq![Chunk::Token(Token::SELECT)] + columns@,
    {
        self.advance(helpers::select(columns))
    }

    /// Continues with `SELECT DISTINCT columns` after the definitions.
    pub fn select_distinct(self, columns: SQL) -> (res: SelectBuilder<Schema, SelectInitial>)
        ensures
            res@ == self@ + seq![Chunk::Token(Token::SELECT), Chunk::Token(Token::DISTINCT)]
                + columns@,
    {
        self.advance(helpers::select_distinct(columns))
    }

    /// Continues with `SELECT DISTINCT ON (on) columns` after the definitions.
    pub fn select_distinct_on(self, on: SQL, columns: SQL) -> (res: SelectBuilder<Schema, SelectInitial>)
        ensures
            res@ == self@ + seq![
                Chunk::Token(Token::SELECT),
                Chunk::Token(Token::DISTINCT),
                Chunk::Token(Token::ON),
                Chunk::Token(Token::LPAREN),
            ] + on@ + seq![Chunk::Token(Token::RPAREN)] + columns@,
    {
        self.advance(helpers::select_distinct_on(on, columns))
    }

    /// Continues with `INSERT INTO table` after the definitions.
    pub fn insert<T: PostgresTable>(self, table: &T) -> (res: InsertBuilder<Schema, InsertInitial>)
        ensures
            extends(res@, self@),
            ({
                let more = added(res@, self@);
                &&& more.len() >= 2
                &&& more.take(2) == seq![Chunk::Token(Token::INSERT), Chunk::Token(Token::INTO)]
                &&& names_relation(more.skip(2), table.spec_name(), table.spec_schema())
            }),
    {
        let ghost before = self@;
        let more = helpers::insert(table);
        let ghost m = more@;
        let res = self.advance(more);
        assert(res@.take(before.len() as int) =~= before);
        assert(added(res@, before) =~= m);
        res
    }

    /// Continues with `UPDATE table` after the definitions.
    pub fn update<T: PostgresTable>(self, table: &T) -> (res: UpdateBuilder<Schema, UpdateInitial>)
        ensures
            extends(res@, self@),
            ({
                let more = added(res@, self@);
                &&& more.len() >= 1
                &&& more[0] == Chunk::Token(Token::UPDATE)
                &&& names_relation(more.skip(1), table.spec_name(), table.spec_schema())
            }),
    {
        let ghost before = self@;
        let more = helpers::update(table);
        let ghost m = more@;
        let res = self.advance(more);
        assert(res@.take(before.len() as int) =~= before);
        assert(added(res@, before) =~= m);
        res
    }

    /// Continues with `DELETE FROM table` after the definitions.
    pub fn delete<T: PostgresTable>(self, table: &T) -> (res: DeleteBuilder<Schema, DeleteInitial>)
        ensures
            extends(res@, self@),
            ({
                let more = added(res@, self@);
                &&& more.len() >= 2
                &&& more.take(2) == seq![Chunk::Token(Token::DELETE), Chunk::Token(Token::FROM)]
                &&& names_relation(more.skip(2), table.spec_name(), table.spec_schema())
            }),
    {
        let ghost before = self@;
        let more = helpers::delete(table);
        let ghost m = more@;
        let res = self.advance(more);
        assert(res@.take(before.len() as int) =~= before);
        assert(added(res@, before) =~= m);
        res
    }

    /// Adds one more definition: `, definition`.
    pub fn with<C: CTEDefinition>(self, cte: C) -> (res: QueryBuilder<Schema, CTEInit>)
        ensures
            res@ == self@ + seq![Chunk::Token(Token::COMMA)] + cte.definition(),
    {
        self.advance(SQL::token(Token::COMMA).append(cte.cte_definition()))
    }
}

} // verus!
