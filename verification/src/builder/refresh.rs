//! `REFRESH MATERIALIZED VIEW [CONCURRENTLY] name [WITH [NO] DATA]`.
//!
//! `CONCURRENTLY` and `WITH NO DATA` exclude each other; the builder's state
//! offers each only before the other.
use core::marker::PhantomData;
use vstd::prelude::*;

use crate::relation::{PostgresTable, Relation, names_relation, qualified_name};
use crate::sql::{Chunk, SQL, Token};

verus! {

broadcast use vstd::seq_lib::group_seq_properties;

/// State of a refresh with no option.
#[derive(Debug, Clone, Copy, Default)]
pub struct RefreshInitial;

/// State of a refresh with `CONCURRENTLY`.
#[derive(Debug, Clone, Copy, Default)]
pub struct RefreshConcurrently;

/// State of a refresh with `WITH NO DATA`.
#[derive(Debug, Clone, Copy, Default)]
pub struct RefreshWithNoData;

/// The leading keywords `REFRESH MATERIALIZED VIEW`.
pub open spec fn refresh_keywords() -> Seq<Chunk> {
    seq![Chunk::Token(Token::REFRESH), Chunk::Token(Token::MATERIALIZED), Chunk::Token(Token::VIEW)]
}

/// The chunks of `s` after its first three.
pub open spec fn after_keywords(s: Seq<Chunk>) -> Seq<Chunk> {
    if s.len() <= 3 {
        seq![]
    } else {
        s.skip(3)
    }
}

/// A `REFRESH MATERIALIZED VIEW` statement under construction.
#[derive(Debug)]
pub struct RefreshMaterializedView<State = RefreshInitial> {
    sql: SQL,
    state: PhantomData<State>,
}

impl<State> View for RefreshMaterializedView<State> {
    type V = Seq<Chunk>;

    closed spec fn view(&self) -> Seq<Chunk> {
        self.sql@
    }
}

/// The name of `view`: schema-qualified unless its schema is `public`, as
/// the view's own definition writes it.
fn qualified_view_name(view: &Relation) -> (res: SQL)
    ensures
        names_relation(res@, view.spec_name(), view.spec_schema()),
{
    qualified_name(view.name(), view.schema())
}

impl RefreshMaterializedView<RefreshInitial> {
    /// `REFRESH MATERIALIZED VIEW view`
    pub fn new(view: &Relation) -> (res: Self)
        ensures
            res@.len() >= 3,
            res@.take(3) == refresh_keywords(),
            names_relation(res@.skip(3), view.spec_name(), view.spec_schema()),
    {
        let name = qualified_view_name(view);
        let ghost n = name@;
        let sql = SQL::token(Token::REFRESH)
            .push_token(Token::MATERIALIZED)
            .push_token(Token::VIEW)
            .append(name);
        assert(sql@.take(3) =~= refresh_keywords());
        assert(sql@.skip(3) =~= n);
        RefreshMaterializedView { sql, state: PhantomData }
    }

    /// Refreshes without locking out concurrent reads: `CONCURRENTLY` after
    /// the leading keywords. The view needs a unique index for this.
    pub fn concurrently(self) -> (res: RefreshMaterializedView<RefreshConcurrently>)
        ensures
            res@ == refresh_keywords().push(Chunk::Token(Token::CONCURRENTLY)) + after_keywords(self@),
    {
        let ghost all = self@;
        let ghost head = refresh_keywords().push(Chunk::Token(Token::CONCURRENTLY));
        let mut sql = SQL::token(Token::REFRESH)
            .push_token(Token::MATERIALIZED)
            .push_token(Token::VIEW)
            .push_token(Token::CONCURRENTLY);
        assert(sql@ =~= head);
        let chunks = self.sql.into_chunks();
        let mut seen: usize = 0;
        for c in it: chunks.into_iter()
            invariant
                it.seq() == all,
                seen == if it.index() < 3 { it.index() } else { 3 },
                sql@ == head + after_keywords(all.take(it.index() as int)),
        {
            let ghost k = it.index();
            assert(all.take(k + 1).last() == c);
            assert(after_keywords(all.take(k + 1)) =~= if k < 3 {
                after_keywords(all.take(k))
            } else {
                after_keywords(all.take(k)).push(c)
            });
            if seen < 3 {
                seen = seen + 1;
            } else {
                sql = sql.push(c);
            }
        }
        assert(all.take(all.len() as int) == all);
        RefreshMaterializedView { sql, state: PhantomData }
    }

    /// Empties the view instead of refreshing it: `WITH NO DATA`.
    pub fn with_no_data(self) -> (res: RefreshMaterializedView<RefreshWithNoData>)
        ensures
            res@ == self@ + seq![Chunk::Token(Token::WITH), Chunk::Token(Token::NO), Chunk::Token(Token::DATA)],
    {
        RefreshMaterializedView {
            sql: self.sql.push_token(Token::WITH).push_token(Token::NO).push_token(Token::DATA),
            state: PhantomData,
        }
    }

    /// States the default explicitly: `WITH DATA`.
    pub fn with_data(self) -> (res: Self)
        ensures
            res@ == self@ + seq![Chunk::Token(Token::WITH), Chunk::Token(Token::DATA)],
    {
        RefreshMaterializedView { sql: self.sql.push_token(Token::WITH).push_token(Token::DATA), state: PhantomData }
    }
}

impl<State> RefreshMaterializedView<State> {
    /// The statement.
    pub fn to_sql(self) -> (res: SQL)
        ensures
            res@ == self@,
    {
        self.sql
    }
}

/// `REFRESH MATERIALIZED VIEW view`
pub fn refresh_materialized_view(view: &Relation) -> (res: RefreshMaterializedView<RefreshInitial>)
    ensures
        res@.len() >= 3,
        res@.take(3) == refresh_keywords(),
        names_relation(res@.skip(3), view.spec_name(), view.spec_schema()),
{
    RefreshMaterializedView::new(view)
}

} // verus!
