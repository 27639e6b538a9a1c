//! `SELECT` statements.
use vstd::prelude::*;

use super::{ExecutableState, QueryBuilder, added, extends};
use super::cte::CTEView;
use crate::helpers::{
    self, Join, JoinKind, count_clause, join_on_shape, join_using_shape, opt_view,
};
use crate::relation::PostgresTable;
use crate::sql::{Chunk, SQL, Token, ident_chunk, joined, views_of};

verus! {

/// State of a `SELECT` after the statement has its column list.
#[derive(Debug, Clone, Copy, Default)]
pub struct SelectInitial;

/// State of a `SELECT` after `FROM` is set.
#[derive(Debug, Clone, Copy, Default)]
pub struct SelectFromSet;

/// State of a `SELECT` after a join was added.
#[derive(Debug, Clone, Copy, Default)]
pub struct SelectJoinSet;

/// State of a `SELECT` after `WHERE` is set.
#[derive(Debug, Clone, Copy, Default)]
pub struct SelectWhereSet;

/// State of a `SELECT` after `GROUP BY` is set.
#[derive(Debug, Clone, Copy, Default)]
pub struct SelectGroupSet;

/// State of a `SELECT` after `ORDER BY` is set.
#[derive(Debug, Clone, Copy, Default)]
pub struct SelectOrderSet;

/// State of a `SELECT` after `LIMIT` is set.
#[derive(Debug, Clone, Copy, Default)]
pub struct SelectLimitSet;

/// State of a `SELECT` after `OFFSET` is set.
#[derive(Debug, Clone, Copy, Default)]
pub struct SelectOffsetSet;

/// State of a `SELECT` after a set operation combined two queries.
#[derive(Debug, Clone, Copy, Default)]
pub struct SelectSetOpSet;

/// State of a `SELECT` after a row-locking clause is set.
#[derive(Debug, Clone, Copy, Default)]
pub struct SelectForSet;

/// A `SELECT` statement under construction.
pub type SelectBuilder<Schema, State> = QueryBuilder<Schema, State>;

/// States after which the query can become a common table expression.
pub trait AsCteState {

}

/// States after which a row-locking clause (`FOR UPDATE`, ...) may follow.
pub trait ForLockableState {

}

impl ExecutableState for SelectFromSet {

}

impl ExecutableState for SelectWhereSet {

}

impl ExecutableState for SelectLimitSet {

}

impl ExecutableState for SelectOffsetSet {

}

impl ExecutableState for SelectOrderSet {

}

impl ExecutableState for SelectGroupSet {

}

impl ExecutableState for SelectJoinSet {

}

impl ExecutableState for SelectSetOpSet {

}

impl ExecutableState for SelectForSet {

}

impl AsCteState for SelectFromSet {

}

impl AsCteState for SelectJoinSet {

}

impl AsCteState for SelectWhereSet {

}

impl AsCteState for SelectGroupSet {

}

impl AsCteState for SelectOrderSet {

}

impl AsCteState for SelectLimitSet {

}

impl AsCteState for SelectOffsetSet {

}

impl ForLockableState for SelectFromSet {

}

impl ForLockableState for SelectWhereSet {

}

impl ForLockableState for SelectOrderSet {

}

impl ForLockableState for SelectLimitSet {

}

impl ForLockableState for SelectOffsetSet {

}

impl ForLockableState for SelectJoinSet {

}

impl ForLockableState for SelectGroupSet {

}

impl<S> SelectBuilder<S, SelectInitial> {
    /// Adds `FROM source`.
    pub fn from(self, source: SQL) -> (res: SelectBuilder<S, SelectFromSet>)
        ensures
            res@ == self@ + seq![Chunk::Token(Token::FROM)] + source@,
    {
        self.advance(helpers::from(source))
    }
}

impl<S> SelectBuilder<S, SelectFromSet> {
    /// Adds `JOIN table`, with `ON condition` when one is given.
    pub fn join<T: PostgresTable>(self, table: &T, on: Option<SQL>) -> (res: SelectBuilder<S, SelectJoinSet>)
        ensures
            extends(res@, self@),
            join_on_shape(added(res@, self@), Join { natural: false, kind: JoinKind::Plain, outer: false }, table.spec_name(), table.spec_schema(), opt_view(on)),
    {
        let ghost before = self@;
        let more = helpers::join_on(table, Join::new(), on);
        let ghost m = more@;
        let res = self.advance(more);
        assert(res@.take(before.len() as int) =~= before);
        assert(added(res@, before) =~= m);
        res
    }

    /// Adds `NATURAL JOIN table`, with `ON condition` when one is given.
    pub fn natural_join<T: PostgresTable>(self, table: &T, on: Option<SQL>) -> (res: SelectBuilder<S, SelectJoinSet>)
        ensures
            extends(res@, self@),
            join_on_shape(added(res@, self@), Join { natural: true, kind: JoinKind::Plain, outer: false }, table.spec_name(), table.spec_schema(), opt_view(on)),
    {
        let ghost before = self@;
        let more = helpers::join_on(table, Join::new().natural(), on);
        let ghost m = more@;
        let res = self.advance(more);
        assert(res@.take(before.len() as int) =~= before);
        assert(added(res@, before) =~= m);
        res
    }

    /// Adds `NATURAL LEFT JOIN table`, with `ON condition` when one is given.
    pub fn natural_left_join<T: PostgresTable>(self, table: &T, on: Option<SQL>) -> (res: SelectBuilder<S, SelectJoinSet>)
        ensures
            extends(res@, self@),
            join_on_shape(added(res@, self@), Join { natural: true, kind: JoinKind::Left, outer: false }, table.spec_name(), table.spec_schema(), opt_view(on)),
    {
        let ghost before = self@;
        let more = helpers::join_on(table, Join::new().natural().left(), on);
        let ghost m = more@;
        let res = self.advance(more);
        assert(res@.take(before.len() as int) =~= before);
        assert(added(res@, before) =~= m);
        res
    }

    /// Adds `LEFT JOIN table`, with `ON condition` when one is given.
    pub fn left_join<T: PostgresTable>(self, table: &T, on: Option<SQL>) -> (res: SelectBuilder<S, SelectJoinSet>)
        ensures
            extends(res@, self@),
            join_on_shape(added(res@, self@), Join { natural: false, kind: JoinKind::Left, outer: false }, table.spec_name(), table.spec_schema(), opt_view(on)),
    {
        let ghost before = self@;
        let more = helpers::join_on(table, Join::new().left(), on);
        let ghost m = more@;
        let res = self.advance(more);
        assert(res@.take(before.len() as int) =~= before);
        assert(added(res@, before) =~= m);
        res
    }

    /// Adds `LEFT OUTER JOIN table`, with `ON condition` when one is given.
    pub fn left_outer_join<T: PostgresTable>(self, table: &T, on: Option<SQL>) -> (res: SelectBuilder<S, SelectJoinSet>)
        ensures
            extends(res@, self@),
            join_on_shape(added(res@, self@), Join { natural: false, kind: JoinKind::Left, outer: true }, table.spec_name(), table.spec_schema(), opt_view(on)),
    {
        let ghost before = self@;
        let more = helpers::join_on(table, Join::new().left().outer(), on);
        let ghost m = more@;
        let res = self.advance(more);
        assert(res@.take(before.len() as int) =~= before);
        assert(added(res@, before) =~= m);
        res
    }

    /// Adds `NATURAL LEFT OUTER JOIN table`, with `ON condition` when one is given.
    pub fn natural_left_outer_join<T: PostgresTable>(self, table: &T, on: Option<SQL>) -> (res: SelectBuilder<S, SelectJoinSet>)
        ensures
            extends(res@, self@),
            join_on_shape(added(res@, self@), Join { natural: true, kind: JoinKind::Left, outer: true }, table.spec_name(), table.spec_schema(), opt_view(on)),
    {
        let ghost before = self@;
        let more = helpers::join_on(table, Join::new().natural().left().outer(), on);
        let ghost m = more@;
        let res = self.advance(more);
        assert(res@.take(before.len() as int) =~= before);
        assert(added(res@, before) =~= m);
        res
    }

    /// Adds `NATURAL RIGHT JOIN table`, with `ON condition` when one is given.
    pub fn natural_right_join<T: PostgresTable>(self, table: &T, on: Option<SQL>) -> (res: SelectBuilder<S, SelectJoinSet>)
        ensures
            extends(res@, self@),
            join_on_shape(added(res@, self@), Join { natural: true, kind: JoinKind::Right, outer: false }, table.spec_name(), table.spec_schema(), opt_view(on)),
    {
        let ghost before = self@;
        let more = helpers::join_on(table, Join::new().natural().right(), on);
        let ghost m = more@;
        let res = self.advance(more);
        assert(res@.take(before.len() as int) =~= before);
        assert(added(res@, before) =~= m);
        res
    }

    /// Adds `RIGHT JOIN table`, with `ON condition` when one is given.
    pub fn right_join<T: PostgresTable>(self, table: &T, on: Option<SQL>) -> (res: SelectBuilder<S, SelectJoinSet>)
        ensures
            extends(res@, self@),
            join_on_shape(added(res@, self@), Join { natural: false, kind: JoinKind::Right, outer: false }, table.spec_name(), table.spec_schema(), opt_view(on)),
    {
        let ghost before = self@;
        let more = helpers::join_on(table, Join::new().right(), on);
        let ghost m = more@;
        let res = self.advance(more);
        assert(res@.take(before.len() as int) =~= before);
        assert(added(res@, before) =~= m);
        res
    }

    /// Adds `RIGHT OUTER JOIN table`, with `ON condition` when one is given.
    pub fn right_outer_join<T: PostgresTable>(self, table: &T, on: Option<SQL>) -> (res: SelectBuilder<S, SelectJoinSet>)
        ensures
            extends(res@, self@),
            join_on_shape(added(res@, self@), Join { natural: false, kind: JoinKind::Right, outer: true }, table.spec_name(), table.spec_schema(), opt_view(on)),
    {
        let ghost before = self@;
        let more = helpers::join_on(table, Join::new().right().outer(), on);
        let ghost m = more@;
        let res = self.advance(more);
        assert(res@.take(before.len() as int) =~= before);
        assert(added(res@, before) =~= m);
        res
    }

    /// Adds `NATURAL RIGHT OUTER JOIN table`, with `ON condition` when one is given.
    pub fn natural_right_outer_join<T: PostgresTable>(self, table: &T, on: Option<SQL>) -> (res: SelectBuilder<S, SelectJoinSet>)
        ensures
            extends(res@, self@),
            join_on_shape(added(res@, self@), Join { natural: true, kind: JoinKind::Right, outer: true }, table.spec_name(), table.spec_schema(), opt_view(on)),
    {
        let ghost before = self@;
        let more = helpers::join_on(table, Join::new().natural().right().outer(), on);
        let ghost m = more@;
        let res = self.advance(more);
        assert(res@.take(before.len() as int) =~= before);
        assert(added(res@, before) =~= m);
        res
    }

    /// Adds `NATURAL FULL JOIN table`, with `ON condition` when one is given.
    pub fn natural_full_join<T: PostgresTable>(self, table: &T, on: Option<SQL>) -> (res: SelectBuilder<S, SelectJoinSet>)
        ensures
            extends(res@, self@),
            join_on_shape(added(res@, self@), Join { natural: true, kind: JoinKind::Full, outer: false }, table.spec_name(), table.spec_schema(), opt_view(on)),
    {
        let ghost before = self@;
        let more = helpers::join_on(table, Join::new().natural().full(), on);
        let ghost m = more@;
        let res = self.advance(more);
        assert(res@.take(before.len() as int) =~= before);
        assert(added(res@, before) =~= m);
        res
    }

    /// Adds `FULL JOIN table`, with `ON condition` when one is given.
    pub fn full_join<T: PostgresTable>(self, table: &T, on: Option<SQL>) -> (res: SelectBuilder<S, SelectJoinSet>)
        ensures
            extends(res@, self@),
            join_on_shape(added(res@, self@), Join { natural: false, kind: JoinKind::Full, outer: false }, table.spec_name(), table.spec_schema(), opt_view(on)),
    {
        let ghost before = self@;
        let more = helpers::join_on(table, Join::new().full(), on);
        let ghost m = more@;
        let res = self.advance(more);
        assert(res@.take(before.len() as int) =~= before);
        assert(added(res@, before) =~= m);
        res
    }

    /// Adds `FULL OUTER JOIN table`, with `ON condition` when one is given.
    pub fn full_outer_join<T: PostgresTable>(self, table: &T, on: Option<SQL>) -> (res: SelectBuilder<S, SelectJoinSet>)
        ensures
            extends(res@, self@),
            join_on_shape(added(res@, self@), Join { natural: false, kind: JoinKind::Full, outer: true }, table.spec_name(), table.spec_schema(), opt_view(on)),
    {
        let ghost before = self@;
        let more = helpers::join_on(table, Join::new().full().outer(), on);
        let ghost m = more@;
        let res = self.advance(more);
        assert(res@.take(before.len() as int) =~= before);
        assert(added(res@, before) =~= m);
        res
    }

    /// Adds `NATURAL FULL OUTER JOIN table`, with `ON condition` when one is given.
    pub fn natural_full_outer_join<T: PostgresTable>(self, table: &T, on: Option<SQL>) -> (res: SelectBuilder<S, SelectJoinSet>)
        ensures
            extends(res@, self@),
            join_on_shape(added(res@, self@), Join { natural: true, kind: JoinKind::Full, outer: true }, table.spec_name(), table.spec_schema(), opt_view(on)),
    {
        let ghost before = self@;
        let more = helpers::join_on(table, Join::new().natural().full().outer(), on);
        let ghost m = more@;
        let res = self.advance(more);
        assert(res@.take(before.len() as int) =~= before);
        assert(added(res@, before) =~= m);
        res
    }

    /// Adds `INNER JOIN table`, with `ON condition` when one is given.
    pub fn inner_join<T: PostgresTable>(self, table: &T, on: Option<SQL>) -> (res: SelectBuilder<S, SelectJoinSet>)
        ensures
            extends(res@, self@),
            join_on_shape(added(res@, self@), Join { natural: false, kind: JoinKind::Inner, outer: false }, table.spec_name(), table.spec_schema(), opt_view(on)),
    {
        let ghost before = self@;
        let more = helpers::join_on(table, Join::new().inner(), on);
        let ghost m = more@;
        let res = self.advance(more);
        assert(res@.take(before.len() as int) =~= before);
        assert(added(res@, before) =~= m);
        res
    }

    /// Adds `CROSS JOIN table`, with `ON condition` when one is given.
    pub fn cross_join<T: PostgresTable>(self, table: &T, on: Option<SQL>) -> (res: SelectBuilder<S, SelectJoinSet>)
        ensures
            extends(res@, self@),
            join_on_shape(added(res@, self@), Join { natural: false, kind: JoinKind::Cross, outer: false }, table.spec_name(), table.spec_schema(), opt_view(on)),
    {
        let ghost before = self@;
        let more = helpers::join_on(table, Join::new().cross(), on);
        let ghost m = more@;
        let res = self.advance(more);
        assert(res@.take(before.len() as int) =~= before);
        assert(added(res@, before) =~= m);
        res
    }

    /// Adds `JOIN table USING (columns)`.
    pub fn join_using<T: PostgresTable>(self, table: &T, columns: SQL) -> (res: SelectBuilder<S, SelectJoinSet>)
        ensures
            extends(res@, self@),
            join_using_shape(added(res@, self@), Join { natural: false, kind: JoinKind::Plain, outer: false }, table.spec_name(), table.spec_schema(), columns@),
    {
        let ghost before = self@;
        let more = helpers::join_using(table, columns);
        let ghost m = more@;
        let res = self.advance(more);
        assert(res@.take(before.len() as int) =~= before);
        assert(added(res@, before) =~= m);
        res
    }

    /// Adds `LEFT JOIN table USING (columns)`.
    pub fn left_join_using<T: PostgresTable>(self, table: &T, columns: SQL) -> (res: SelectBuilder<S, SelectJoinSet>)
        ensures
            extends(res@, self@),
            join_using_shape(added(res@, self@), Join { natural: false, kind: JoinKind::Left, outer: false }, table.spec_name(), table.spec_schema(), columns@),
    {
        let ghost before = self@;
        let more = helpers::left_join_using(table, columns);
        let ghost m = more@;
        let res = self.advance(more);
        assert(res@.take(before.len() as int) =~= before);
        assert(added(res@, before) =~= m);
        res
    }

    /// Adds `LEFT OUTER JOIN table USING (columns)`.
    pub fn left_outer_join_using<T: PostgresTable>(self, table: &T, columns: SQL) -> (res: SelectBuilder<S, SelectJoinSet>)
        ensures
            extends(res@, self@),
            join_using_shape(added(res@, self@), Join { natural: false, kind: JoinKind::Left, outer: true }, table.spec_name(), table.spec_schema(), columns@),
    {
        let ghost before = self@;
        let more = helpers::left_outer_join_using(table, columns);
        let ghost m = more@;
        let res = self.advance(more);
        assert(res@.take(before.len() as int) =~= before);
        assert(added(res@, before) =~= m);
        res
    }

    /// Adds `RIGHT JOIN table USING (columns)`.
    pub fn right_join_using<T: PostgresTable>(self, table: &T, columns: SQL) -> (res: SelectBuilder<S, SelectJoinSet>)
        ensures
            extends(res@, self@),
            join_using_shape(added(res@, self@), Join { natural: false, kind: JoinKind::Right, outer: false }, table.spec_name(), table.spec_schema(), columns@),
    {
        let ghost before = self@;
        let more = helpers::right_join_using(table, columns);
        let ghost m = more@;
        let res = self.advance(more);
        assert(res@.take(before.len() as int) =~= before);
        assert(added(res@, before) =~= m);
        res
    }

    /// Adds `RIGHT OUTER JOIN table USING (columns)`.
    pub fn right_outer_join_using<T: PostgresTable>(self, table: &T, columns: SQL) -> (res: SelectBuilder<S, SelectJoinSet>)
        ensures
            extends(res@, self@),
            join_using_shape(added(res@, self@), Join { natural: false, kind: JoinKind::Right, outer: true }, table.spec_name(), table.spec_schema(), columns@),
    {
        let ghost before = self@;
        let more = helpers::right_outer_join_using(table, columns);
        let ghost m = more@;
        let res = self.advance(more);
        assert(res@.take(before.len() as int) =~= before);
        assert(added(res@, before) =~= m);
        res
    }

    /// Adds `FULL JOIN table USING (columns)`.
    pub fn full_join_using<T: PostgresTable>(self, table: &T, columns: SQL) -> (res: SelectBuilder<S, SelectJoinSet>)
        ensures
            extends(res@, self@),
            join_using_shape(added(res@, self@), Join { natural: false, kind: JoinKind::Full, outer: false }, table.spec_name(), table.spec_schema(), columns@),
    {
        let ghost before = self@;
        let more = helpers::full_join_using(table, columns);
        let ghost m = more@;
        let res = self.advance(more);
        assert(res@.take(before.len() as int) =~= before);
        assert(added(res@, before) =~= m);
        res
    }

    /// Adds `FULL OUTER JOIN table USING (columns)`.
    pub fn full_outer_join_using<T: PostgresTable>(self, table: &T, columns: SQL) -> (res: SelectBuilder<S, SelectJoinSet>)
        ensures
            extends(res@, self@),
            join_using_shape(added(res@, self@), Join { natural: false, kind: JoinKind::Full, outer: true }, table.spec_name(), table.spec_schema(), columns@),
    {
        let ghost before = self@;
        let more = helpers::full_outer_join_using(table, columns);
        let ghost m = more@;
        let res = self.advance(more);
        assert(res@.take(before.len() as int) =~= before);
        assert(added(res@, before) =~= m);
        res
    }

    /// Adds `INNER JOIN table USING (columns)`.
    pub fn inner_join_using<T: PostgresTable>(self, table: &T, columns: SQL) -> (res: SelectBuilder<S, SelectJoinSet>)
        ensures
            extends(res@, self@),
            join_using_shape(added(res@, self@), Join { natural: false, kind: JoinKind::Inner, outer: false }, table.spec_name(), table.spec_schema(), columns@),
    {
        let ghost before = self@;
        let more = helpers::inner_join_using(table, columns);
        let ghost m = more@;
        let res = self.advance(more);
        assert(res@.take(before.len() as int) =~= before);
        assert(added(res@, before) =~= m);
        res
    }

    /// Adds `WHERE condition`.
    pub fn where_(self, condition: SQL) -> (res: SelectBuilder<S, SelectWhereSet>)
        ensures
            res@ == self@ + seq![Chunk::Token(Token::WHERE)] + condition@,
    {
        self.advance(helpers::where_(condition))
    }

    /// Adds `GROUP BY e1, e2, ...`.
    pub fn group_by(self, expressions: Vec<SQL>) -> (res: SelectBuilder<S, SelectGroupSet>)
        ensures
            res@ == self@ + seq![Chunk::Token(Token::GROUP), Chunk::Token(Token::BY)] + joined(views_of(expressions@), Token::COMMA),
    {
        self.advance(helpers::group_by(expressions))
    }

    /// Adds `LIMIT n`.
    pub fn limit(self, n: usize) -> (res: SelectBuilder<S, SelectLimitSet>)
        ensures
            extends(res@, self@),
            count_clause(added(res@, self@), Token::LIMIT, n as nat),
    {
        let ghost before = self@;
        let more = helpers::limit(n);
        let ghost m = more@;
        let res = self.advance(more);
        assert(res@.take(before.len() as int) =~= before);
        assert(added(res@, before) =~= m);
        res
    }

    /// Adds `OFFSET n`.
    pub fn offset(self, n: usize) -> (res: SelectBuilder<S, SelectOffsetSet>)
        ensures
            extends(res@, self@),
            count_clause(added(res@, self@), Token::OFFSET, n as nat),
    {
        let ghost before = self@;
        let more = helpers::offset(n);
        let ghost m = more@;
        let res = self.advance(more);
        assert(res@.take(before.len() as int) =~= before);
        assert(added(res@, before) =~= m);
        res
    }

    /// Adds `ORDER BY expressions`.
    pub fn order_by(self, expressions: SQL) -> (res: SelectBuilder<S, SelectOrderSet>)
        ensures
            res@ == self@ + seq![Chunk::Token(Token::ORDER), Chunk::Token(Token::BY)] + expressions@,
    {
        self.advance(helpers::order_by(expressions))
    }
}

impl<S> SelectBuilder<S, SelectJoinSet> {
    /// Adds `WHERE condition`.
    pub fn where_(self, condition: SQL) -> (res: SelectBuilder<S, SelectWhereSet>)
        ensures
            res@ == self@ + seq![Chunk::Token(Token::WHERE)] + condition@,
    {
        self.advance(helpers::where_(condition))
    }

    /// Adds `ORDER BY expressions`.
    pub fn order_by(self, expressions: SQL) -> (res: SelectBuilder<S, SelectOrderSet>)
        ensures
            res@ == self@ + seq![Chunk::Token(Token::ORDER), Chunk::Token(Token::BY)] + expressions@,
    {
        self.advance(helpers::order_by(expressions))
    }

    /// Adds `JOIN table`, with `ON condition` when one is given.
    pub fn join<T: PostgresTable>(self, table: &T, on: Option<SQL>) -> (res: SelectBuilder<S, SelectJoinSet>)
        ensures
            extends(res@, self@),
            join_on_shape(added(res@, self@), Join { natural: false, kind: JoinKind::Plain, outer: false }, table.spec_name(), table.spec_schema(), opt_view(on)),
    {
        let ghost before = self@;
        let more = helpers::join_on(table, Join::new(), on);
        let ghost m = more@;
        let res = self.advance(more);
        assert(res@.take(before.len() as int) =~= before);
        assert(added(res@, before) =~= m);
        res
    }

    /// Adds `NATURAL JOIN table`, with `ON condition` when one is given.
    pub fn natural_join<T: PostgresTable>(self, table: &T, on: Option<SQL>) -> (res: SelectBuilder<S, SelectJoinSet>)
        ensures
            extends(res@, self@),
            join_on_shape(added(res@, self@), Join { natural: true, kind: JoinKind::Plain, outer: false }, table.spec_name(), table.spec_schema(), opt_view(on)),
    {
        let ghost before = self@;
        let more = helpers::join_on(table, Join::new().natural(), on);
        let ghost m = more@;
        let res = self.advance(more);
        assert(res@.take(before.len() as int) =~= before);
        assert(added(res@, before) =~= m);
        res
    }

    /// Adds `NATURAL LEFT JOIN table`, with `ON condition` when one is given.
    pub fn natural_left_join<T: PostgresTable>(self, table: &T, on: Option<SQL>) -> (res: SelectBuilder<S, SelectJoinSet>)
        ensures
            extends(res@, self@),
            join_on_shape(added(res@, self@), Join { natural: true, kind: JoinKind::Left, outer: false }, table.spec_name(), table.spec_schema(), opt_view(on)),
    {
        let ghost before = self@;
        let more = helpers::join_on(table, Join::new().natural().left(), on);
        let ghost m = more@;
        let res = self.advance(more);
        assert(res@.take(before.len() as int) =~= before);
        assert(added(res@, before) =~= m);
        res
    }

    /// Adds `LEFT JOIN table`, with `ON condition` when one is given.
    pub fn left_join<T: PostgresTable>(self, table: &T, on: Option<SQL>) -> (res: SelectBuilder<S, SelectJoinSet>)
        ensures
            extends(res@, self@),
            join_on_shape(added(res@, self@), Join { natural: false, kind: JoinKind::Left, outer: false }, table.spec_name(), table.spec_schema(), opt_view(on)),
    {
        let ghost before = self@;
        let more = helpers::join_on(table, Join::new().left(), on);
        let ghost m = more@;
        let res = self.advance(more);
        assert(res@.take(before.len() as int) =~= before);
        assert(added(res@, before) =~= m);
        res
    }

    /// Adds `LEFT OUTER JOIN table`, with `ON condition` when one is given.
    pub fn left_outer_join<T: PostgresTable>(self, table: &T, on: Option<SQL>) -> (res: SelectBuilder<S, SelectJoinSet>)
        ensures
            extends(res@, self@),
            join_on_shape(added(res@, self@), Join { natural: false, kind: JoinKind::Left, outer: true }, table.spec_name(), table.spec_schema(), opt_view(on)),
    {
        let ghost before = self@;
        let more = helpers::join_on(table, Join::new().left().outer(), on);
        let ghost m = more@;
        let res = self.advance(more);
        assert(res@.take(before.len() as int) =~= before);
        assert(added(res@, before) =~= m);
        res
    }

    /// Adds `NATURAL LEFT OUTER JOIN table`, with `ON condition` when one is given.
    pub fn natural_left_outer_join<T: PostgresTable>(self, table: &T, on: Option<SQL>) -> (res: SelectBuilder<S, SelectJoinSet>)
        ensures
            extends(res@, self@),
            join_on_shape(added(res@, self@), Join { natural: true, kind: JoinKind::Left, outer: true }, table.spec_name(), table.spec_schema(), opt_view(on)),
    {
        let ghost before = self@;
        let more = helpers::join_on(table, Join::new().natural().left().outer(), on);
        let ghost m = more@;
        let res = self.advance(more);
        assert(res@.take(before.len() as int) =~= before);
        assert(added(res@, before) =~= m);
        res
    }

    /// Adds `NATURAL RIGHT JOIN table`, with `ON condition` when one is given.
    pub fn natural_right_join<T: PostgresTable>(self, table: &T, on: Option<SQL>) -> (res: SelectBuilder<S, SelectJoinSet>)
        ensures
            extends(res@, self@),
            join_on_shape(added(res@, self@), Join { natural: true, kind: JoinKind::Right, outer: false }, table.spec_name(), table.spec_schema(), opt_view(on)),
    {
        let ghost before = self@;
        let more = helpers::join_on(table, Join::new().natural().right(), on);
        let ghost m = more@;
        let res = self.advance(more);
        assert(res@.take(before.len() as int) =~= before);
        assert(added(res@, before) =~= m);
        res
    }

    /// Adds `RIGHT JOIN table`, with `ON condition` when one is given.
    pub fn right_join<T: PostgresTable>(self, table: &T, on: Option<SQL>) -> (res: SelectBuilder<S, SelectJoinSet>)
        ensures
            extends(res@, self@),
            join_on_shape(added(res@, self@), Join { natural: false, kind: JoinKind::Right, outer: false }, table.spec_name(), table.spec_schema(), opt_view(on)),
    {
        let ghost before = self@;
        let more = helpers::join_on(table, Join::new().right(), on);
        let ghost m = more@;
        let res = self.advance(more);
        assert(res@.take(before.len() as int) =~= before);
        assert(added(res@, before) =~= m);
        res
    }

    /// Adds `RIGHT OUTER JOIN table`, with `ON condition` when one is given.
    pub fn right_outer_join<T: PostgresTable>(self, table: &T, on: Option<SQL>) -> (res: SelectBuilder<S, SelectJoinSet>)
        ensures
            extends(res@, self@),
            join_on_shape(added(res@, self@), Join { natural: false, kind: JoinKind::Right, outer: true }, table.spec_name(), table.spec_schema(), opt_view(on)),
    {
        let ghost before = self@;
        let more = helpers::join_on(table, Join::new().right().outer(), on);
        let ghost m = more@;
        let res = self.advance(more);
        assert(res@.take(before.len() as int) =~= before);
        assert(added(res@, before) =~= m);
        res
    }

    /// Adds `NATURAL RIGHT OUTER JOIN table`, with `ON condition` when one is given.
    pub fn natural_right_outer_join<T: PostgresTable>(self, table: &T, on: Option<SQL>) -> (res: SelectBuilder<S, SelectJoinSet>)
        ensures
            extends(res@, self@),
            join_on_shape(added(res@, self@), Join { natural: true, kind: JoinKind::Right, outer: true }, table.spec_name(), table.spec_schema(), opt_view(on)),
    {
        let ghost before = self@;
        let more = helpers::join_on(table, Join::new().natural().right().outer(), on);
        let ghost m = more@;
        let res = self.advance(more);
        assert(res@.take(before.len() as int) =~= before);
        assert(added(res@, before) =~= m);
        res
    }

    /// Adds `NATURAL FULL JOIN table`, with `ON condition` when one is given.
    pub fn natural_full_join<T: PostgresTable>(self, table: &T, on: Option<SQL>) -> (res: SelectBuilder<S, SelectJoinSet>)
        ensures
            extends(res@, self@),
            join_on_shape(added(res@, self@), Join { natural: true, kind: JoinKind::Full, outer: false }, table.spec_name(), table.spec_schema(), opt_view(on)),
    {
        let ghost before = self@;
        let more = helpers::join_on(table, Join::new().natural().full(), on);
        let ghost m = more@;
        let res = self.advance(more);
        assert(res@.take(before.len() as int) =~= before);
        assert(added(res@, before) =~= m);
        res
    }

    /// Adds `FULL JOIN table`, with `ON condition` when one is given.
    pub fn full_join<T: PostgresTable>(self, table: &T, on: Option<SQL>) -> (res: SelectBuilder<S, SelectJoinSet>)
        ensures
            extends(res@, self@),
            join_on_shape(added(res@, self@), Join { natural: false, kind: JoinKind::Full, outer: false }, table.spec_name(), table.spec_schema(), opt_view(on)),
    {
        let ghost before = self@;
        let more = helpers::join_on(table, Join::new().full(), on);
        let ghost m = more@;
        let res = self.advance(more);
        assert(res@.take(before.len() as int) =~= before);
        assert(added(res@, before) =~= m);
        res
    }

    /// Adds `FULL OUTER JOIN table`, with `ON condition` when one is given.
    pub fn full_outer_join<T: PostgresTable>(self, table: &T, on: Option<SQL>) -> (res: SelectBuilder<S, SelectJoinSet>)
        ensures
            extends(res@, self@),
            join_on_shape(added(res@, self@), Join { natural: false, kind: JoinKind::Full, outer: true }, table.spec_name(), table.spec_schema(), opt_view(on)),
    {
        let ghost before = self@;
        let more = helpers::join_on(table, Join::new().full().outer(), on);
        let ghost m = more@;
        let res = self.advance(more);
        assert(res@.take(before.len() as int) =~= before);
        assert(added(res@, before) =~= m);
        res
    }

    /// Adds `NATURAL FULL OUTER JOIN table`, with `ON condition` when one is given.
    pub fn natural_full_outer_join<T: PostgresTable>(self, table: &T, on: Option<SQL>) -> (res: SelectBuilder<S, SelectJoinSet>)
        ensures
            extends(res@, self@),
            join_on_shape(added(res@, self@), Join { natural: true, kind: JoinKind::Full, outer: true }, table.spec_name(), table.spec_schema(), opt_view(on)),
    {
        let ghost before = self@;
        let more = helpers::join_on(table, Join::new().natural().full().outer(), on);
        let ghost m = more@;
        let res = self.advance(more);
        assert(res@.take(before.len() as int) =~= before);
        assert(added(res@, before) =~= m);
        res
    }

    /// Adds `INNER JOIN table`, with `ON condition` when one is given.
    pub fn inner_join<T: PostgresTable>(self, table: &T, on: Option<SQL>) -> (res: SelectBuilder<S, SelectJoinSet>)
        ensures
            extends(res@, self@),
            join_on_shape(added(res@, self@), Join { natural: false, kind: JoinKind::Inner, outer: false }, table.spec_name(), table.spec_schema(), opt_view(on)),
    {
        let ghost before = self@;
        let more = helpers::join_on(table, Join::new().inner(), on);
        let ghost m = more@;
        let res = self.advance(more);
        assert(res@.take(before.len() as int) =~= before);
        assert(added(res@, before) =~= m);
        res
    }

    /// Adds `CROSS JOIN table`, with `ON condition` when one is given.
    pub fn cross_join<T: PostgresTable>(self, table: &T, on: Option<SQL>) -> (res: SelectBuilder<S, SelectJoinSet>)
        ensures
            extends(res@, self@),
            join_on_shape(added(res@, self@), Join { natural: false, kind: JoinKind::Cross, outer: false }, table.spec_name(), table.spec_schema(), opt_view(on)),
    {
        let ghost before = self@;
        let more = helpers::join_on(table, Join::new().cross(), on);
        let ghost m = more@;
        let res = self.advance(more);
        assert(res@.take(before.len() as int) =~= before);
        assert(added(res@, before) =~= m);
        res
    }

    /// Adds `JOIN table USING (columns)`.
    pub fn join_using<T: PostgresTable>(self, table: &T, columns: SQL) -> (res: SelectBuilder<S, SelectJoinSet>)
        ensures
            extends(res@, self@),
            join_using_shape(added(res@, self@), Join { natural: false, kind: JoinKind::Plain, outer: false }, table.spec_name(), table.spec_schema(), columns@),
    {
        let ghost before = self@;
        let more = helpers::join_using(table, columns);
        let ghost m = more@;
        let res = self.advance(more);
        assert(res@.take(before.len() as int) =~= before);
        assert(added(res@, before) =~= m);
        res
    }

    /// Adds `LEFT JOIN table USING (columns)`.
    pub fn left_join_using<T: PostgresTable>(self, table: &T, columns: SQL) -> (res: SelectBuilder<S, SelectJoinSet>)
        ensures
            extends(res@, self@),
            join_using_shape(added(res@, self@), Join { natural: false, kind: JoinKind::Left, outer: false }, table.spec_name(), table.spec_schema(), columns@),
    {
        let ghost before = self@;
        let more = helpers::left_join_using(table, columns);
        let ghost m = more@;
        let res = self.advance(more);
        assert(res@.take(before.len() as int) =~= before);
        assert(added(res@, before) =~= m);
        res
    }

    /// Adds `LEFT OUTER JOIN table USING (columns)`.
    pub fn left_outer_join_using<T: PostgresTable>(self, table: &T, columns: SQL) -> (res: SelectBuilder<S, SelectJoinSet>)
        ensures
            extends(res@, self@),
            join_using_shape(added(res@, self@), Join { natural: false, kind: JoinKind::Left, outer: true }, table.spec_name(), table.spec_schema(), columns@),
    {
        let ghost before = self@;
        let more = helpers::left_outer_join_using(table, columns);
        let ghost m = more@;
        let res = self.advance(more);
        assert(res@.take(before.len() as int) =~= before);
        assert(added(res@, before) =~= m);
        res
    }

    /// Adds `RIGHT JOIN table USING (columns)`.
    pub fn right_join_using<T: PostgresTable>(self, table: &T, columns: SQL) -> (res: SelectBuilder<S, SelectJoinSet>)
        ensures
            extends(res@, self@),
            join_using_shape(added(res@, self@), Join { natural: false, kind: JoinKind::Right, outer: false }, table.spec_name(), table.spec_schema(), columns@),
    {
        let ghost before = self@;
        let more = helpers::right_join_using(table, columns);
        let ghost m = more@;
        let res = self.advance(more);
        assert(res@.take(before.len() as int) =~= before);
        assert(added(res@, before) =~= m);
        res
    }

    /// Adds `RIGHT OUTER JOIN table USING (columns)`.
    pub fn right_outer_join_using<T: PostgresTable>(self, table: &T, columns: SQL) -> (res: SelectBuilder<S, SelectJoinSet>)
        ensures
            extends(res@, self@),
            join_using_shape(added(res@, self@), Join { natural: false, kind: JoinKind::Right, outer: true }, table.spec_name(), table.spec_schema(), columns@),
    {
        let ghost before = self@;
        let more = helpers::right_outer_join_using(table, columns);
        let ghost m = more@;
        let res = self.advance(more);
        assert(res@.take(before.len() as int) =~= before);
        assert(added(res@, before) =~= m);
        res
    }

    /// Adds `FULL JOIN table USING (columns)`.
    pub fn full_join_using<T: PostgresTable>(self, table: &T, columns: SQL) -> (res: SelectBuilder<S, SelectJoinSet>)
        ensures
            extends(res@, self@),
            join_using_shape(added(res@, self@), Join { natural: false, kind: JoinKind::Full, outer: false }, table.spec_name(), table.spec_schema(), columns@),
    {
        let ghost before = self@;
        let more = helpers::full_join_using(table, columns);
        let ghost m = more@;
        let res = self.advance(more);
        assert(res@.take(before.len() as int) =~= before);
        assert(added(res@, before) =~= m);
        res
    }

    /// Adds `FULL OUTER JOIN table USING (columns)`.
    pub fn full_outer_join_using<T: PostgresTable>(self, table: &T, columns: SQL) -> (res: SelectBuilder<S, SelectJoinSet>)
        ensures
            extends(res@, self@),
            join_using_shape(added(res@, self@), Join { natural: false, kind: JoinKind::Full, outer: true }, table.spec_name(), table.spec_schema(), columns@),
    {
        let ghost before = self@;
        let more = helpers::full_outer_join_using(table, columns);
        let ghost m = more@;
        let res = self.advance(more);
        assert(res@.take(before.len() as int) =~= before);
        assert(added(res@, before) =~= m);
        res
    }

    /// Adds `INNER JOIN table USING (columns)`.
    pub fn inner_join_using<T: PostgresTable>(self, table: &T, columns: SQL) -> (res: SelectBuilder<S, SelectJoinSet>)
        ensures
            extends(res@, self@),
            join_using_shape(added(res@, self@), Join { natural: false, kind: JoinKind::Inner, outer: false }, table.spec_name(), table.spec_schema(), columns@),
    {
        let ghost before = self@;
        let more = helpers::inner_join_using(table, columns);
        let ghost m = more@;
        let res = self.advance(more);
        assert(res@.take(before.len() as int) =~= before);
        assert(added(res@, before) =~= m);
        res
    }
}

impl<S> SelectBuilder<S, SelectWhereSet> {
    /// Adds `GROUP BY e1, e2, ...`.
    pub fn group_by(self, expressions: Vec<SQL>) -> (res: SelectBuilder<S, SelectGroupSet>)
        ensures
            res@ == self@ + seq![Chunk::Token(Token::GROUP), Chunk::Token(Token::BY)] + joined(views_of(expressions@), Token::COMMA),
    {
        self.advance(helpers::group_by(expressions))
    }

    /// Adds `ORDER BY expressions`.
    pub fn order_by(self, expressions: SQL) -> (res: SelectBuilder<S, SelectOrderSet>)
        ensures
            res@ == self@ + seq![Chunk::Token(Token::ORDER), Chunk::Token(Token::BY)] + expressions@,
    {
        self.advance(helpers::order_by(expressions))
    }

    /// Adds `LIMIT n`.
    pub fn limit(self, n: usize) -> (res: SelectBuilder<S, SelectLimitSet>)
        ensures
            extends(res@, self@),
            count_clause(added(res@, self@), Token::LIMIT, n as nat),
    {
        let ghost before = self@;
        let more = helpers::limit(n);
        let ghost m = more@;
        let res = self.advance(more);
        assert(res@.take(before.len() as int) =~= before);
        assert(added(res@, before) =~= m);
        res
    }
}

impl<S> SelectBuilder<S, SelectGroupSet> {
    /// Adds `HAVING condition`.
    pub fn having(self, condition: SQL) -> (res: SelectBuilder<S, SelectGroupSet>)
        ensures
            res@ == self@ + seq![Chunk::Token(Token::HAVING)] + condition@,
    {
        self.advance(helpers::having(condition))
    }

    /// Adds `ORDER BY expressions`.
    pub fn order_by(self, expressions: SQL) -> (res: SelectBuilder<S, SelectOrderSet>)
        ensures
            res@ == self@ + seq![Chunk::Token(Token::ORDER), Chunk::Token(Token::BY)] + expressions@,
    {
        self.advance(helpers::order_by(expressions))
    }
}

impl<S> SelectBuilder<S, SelectOrderSet> {
    /// Adds `LIMIT n`.
    pub fn limit(self, n: usize) -> (res: SelectBuilder<S, SelectLimitSet>)
        ensures
            extends(res@, self@),
            count_clause(added(res@, self@), Token::LIMIT, n as nat),
    {
        let ghost before = self@;
        let more = helpers::limit(n);
        let ghost m = more@;
        let res = self.advance(more);
        assert(res@.take(before.len() as int) =~= before);
        assert(added(res@, before) =~= m);
        res
    }
}

impl<S> SelectBuilder<S, SelectLimitSet> {
    /// Adds `OFFSET n`.
    pub fn offset(self, n: usize) -> (res: SelectBuilder<S, SelectOffsetSet>)
        ensures
            extends(res@, self@),
            count_clause(added(res@, self@), Token::OFFSET, n as nat),
    {
        let ghost before = self@;
        let more = helpers::offset(n);
        let ghost m = more@;
        let res = self.advance(more);
        assert(res@.take(before.len() as int) =~= before);
        assert(added(res@, before) =~= m);
        res
    }
}

impl<S, State: AsCteState> SelectBuilder<S, State> {
    /// Turns this query into the common table expression `"name" AS (query)`.
    pub fn into_cte(self, name: &str) -> (res: CTEView)
        ensures
            res.name_chunks().len() == 1,
            ident_chunk(res.name_chunks()[0], name@),
            res.query_chunks() == self@,
    {
        CTEView::new(name, self.sql)
    }
}

impl<S, State: ExecutableState> SelectBuilder<S, State> {
    /// Combines this query with `other`: `this UNION other`.
    pub fn union(self, other: SQL) -> (res: SelectBuilder<S, SelectSetOpSet>)
        ensures
            res@ == self@ + seq![Chunk::Token(Token::UNION)] + other@,
    {
        QueryBuilder::from_sql(helpers::union(self.sql, other))
    }

    /// Combines this query with `other`: `this UNION ALL other`.
    pub fn union_all(self, other: SQL) -> (res: SelectBuilder<S, SelectSetOpSet>)
        ensures
            res@ == self@ + seq![Chunk::Token(Token::UNION), Chunk::Token(Token::ALL)] + other@,
    {
        QueryBuilder::from_sql(helpers::union_all(self.sql, other))
    }

    /// Combines this query with `other`: `this INTERSECT other`.
    pub fn intersect(self, other: SQL) -> (res: SelectBuilder<S, SelectSetOpSet>)
        ensures
            res@ == self@ + seq![Chunk::Token(Token::INTERSECT)] + other@,
    {
        QueryBuilder::from_sql(helpers::intersect(self.sql, other))
    }

    /// Combines this query with `other`: `this INTERSECT ALL other`.
    pub fn intersect_all(self, other: SQL) -> (res: SelectBuilder<S, SelectSetOpSet>)
        ensures
            res@ == self@ + seq![Chunk::Token(Token::INTERSECT), Chunk::Token(Token::ALL)] + other@,
    {
        QueryBuilder::from_sql(helpers::intersect_all(self.sql, other))
    }

    /// Combines this query with `other`: `this EXCEPT other`.
    pub fn except(self, other: SQL) -> (res: SelectBuilder<S, SelectSetOpSet>)
        ensures
            res@ == self@ + seq![Chunk::Token(Token::EXCEPT)] + other@,
    {
        QueryBuilder::from_sql(helpers::except(self.sql, other))
    }

    /// Combines this query with `other`: `this EXCEPT ALL other`.
    pub fn except_all(self, other: SQL) -> (res: SelectBuilder<S, SelectSetOpSet>)
        ensures
            res@ == self@ + seq![Chunk::Token(Token::EXCEPT), Chunk::Token(Token::ALL)] + other@,
    {
        QueryBuilder::from_sql(helpers::except_all(self.sql, other))
    }
}

impl<S> SelectBuilder<S, SelectSetOpSet> {
    /// Adds `ORDER BY expressions`.
    pub fn order_by(self, expressions: SQL) -> (res: SelectBuilder<S, SelectOrderSet>)
        ensures
            res@ == self@ + seq![Chunk::Token(Token::ORDER), Chunk::Token(Token::BY)] + expressions@,
    {
        self.advance(helpers::order_by(expressions))
    }

    /// Adds `LIMIT n`.
    pub fn limit(self, n: usize) -> (res: SelectBuilder<S, SelectLimitSet>)
        ensures
            extends(res@, self@),
            count_clause(added(res@, self@), Token::LIMIT, n as nat),
    {
        let ghost before = self@;
        let more = helpers::limit(n);
        let ghost m = more@;
        let res = self.advance(more);
        assert(res@.take(before.len() as int) =~= before);
        assert(added(res@, before) =~= m);
        res
    }

    /// Adds `OFFSET n`.
    pub fn offset(self, n: usize) -> (res: SelectBuilder<S, SelectOffsetSet>)
        ensures
            extends(res@, self@),
            count_clause(added(res@, self@), Token::OFFSET, n as nat),
    {
        let ghost before = self@;
        let more = helpers::offset(n);
        let ghost m = more@;
        let res = self.advance(more);
        assert(res@.take(before.len() as int) =~= before);
        assert(added(res@, before) =~= m);
        res
    }
}

impl<S, State: ForLockableState> SelectBuilder<S, State> {
    /// Locks the selected rows: `FOR UPDATE`.
    pub fn for_update(self) -> (res: SelectBuilder<S, SelectForSet>)
        ensures
            res@ == self@ + seq![Chunk::Token(Token::FOR), Chunk::Token(Token::UPDATE)],
    {
        self.advance(helpers::for_update())
    }

    /// Locks the selected rows: `FOR SHARE`.
    pub fn for_share(self) -> (res: SelectBuilder<S, SelectForSet>)
        ensures
            res@ == self@ + seq![Chunk::Token(Token::FOR), Chunk::Token(Token::SHARE)],
    {
        self.advance(helpers::for_share())
    }

    /// Locks the selected rows: `FOR NO KEY UPDATE`.
    pub fn for_no_key_update(self) -> (res: SelectBuilder<S, SelectForSet>)
        ensures
            res@ == self@ + seq![Chunk::Token(Token::FOR), Chunk::Token(Token::NO), Chunk::Token(Token::KEY), Chunk::Token(Token::UPDATE)],
    {
        self.advance(helpers::for_no_key_update())
    }

    /// Locks the selected rows: `FOR KEY SHARE`.
    pub fn for_key_share(self) -> (res: SelectBuilder<S, SelectForSet>)
        ensures
            res@ == self@ + seq![Chunk::Token(Token::FOR), Chunk::Token(Token::KEY), Chunk::Token(Token::SHARE)],
    {
        self.advance(helpers::for_key_share())
    }

    /// Locks the rows of one table: `FOR UPDATE OF "table"`, with the unqualified table name.
    pub fn for_update_of<T: PostgresTable>(self, table: &T) -> (res: SelectBuilder<S, SelectForSet>)
        ensures
            extends(res@, self@),
            ({
                let more = added(res@, self@);
                &&& more.len() == 4
                &&& more.take(3) == seq![Chunk::Token(Token::FOR), Chunk::Token(Token::UPDATE), Chunk::Token(Token::OF)]
                &&& ident_chunk(more[3], table.spec_name())
            }),
    {
        let ghost before = self@;
        let more = helpers::for_update_of(table.name());
        let ghost m = more@;
        let res = self.advance(more);
        assert(res@.take(before.len() as int) =~= before);
        assert(added(res@, before) =~= m);
        res
    }

    /// Locks the rows of one table: `FOR SHARE OF "table"`, with the unqualified table name.
    pub fn for_share_of<T: PostgresTable>(self, table: &T) -> (res: SelectBuilder<S, SelectForSet>)
        ensures
            extends(res@, self@),
            ({
                let more = added(res@, self@);
                &&& more.len() == 4
                &&& more.take(3) == seq![Chunk::Token(Token::FOR), Chunk::Token(Token::SHARE), Chunk::Token(Token::OF)]
                &&& ident_chunk(more[3], table.spec_name())
            }),
    {
        let ghost before = self@;
        let more = helpers::for_share_of(table.name());
        let ghost m = more@;
        let res = self.advance(more);
        assert(res@.take(before.len() as int) =~= before);
        assert(added(res@, before) =~= m);
        res
    }
}

impl<S> SelectBuilder<S, SelectForSet> {
    /// Fails at once instead of waiting for locked rows: `NOWAIT`.
    pub fn nowait(self) -> (res: SelectBuilder<S, SelectForSet>)
        ensures
            res@ == self@ + seq![Chunk::Token(Token::NOWAIT)],
    {
        self.advance(helpers::nowait())
    }

    /// Skips rows that are locked: `SKIP LOCKED`.
    pub fn skip_locked(self) -> (res: SelectBuilder<S, SelectForSet>)
        ensures
            res@ == self@ + seq![Chunk::Token(Token::SKIP), Chunk::Token(Token::LOCKED)],
    {
        self.advance(helpers::skip_locked())
    }
}

} // verus!
