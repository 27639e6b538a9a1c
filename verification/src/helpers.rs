//! Clause builders: the SQL fragments that statements are made of.
use vstd::prelude::*;

use crate::relation::{PostgresTable, names_relation, table_sql};
use crate::sql::{Chunk, SQL, Token, ident_chunk, joined, raw_chunk, views_of};
use crate::values::{nat_text, push_nat_text};

verus! {

broadcast use vstd::seq_lib::group_seq_properties;

/// `LIMIT`/`OFFSET` clause: the keyword and the count as a number.
pub open spec fn count_clause(s: Seq<Chunk>, keyword: Token, n: nat) -> bool {
    &&& s.len() == 2
    &&& s[0] == Chunk::Token(keyword)
    &&& raw_chunk(s[1], nat_text(n))
}

/// The kind of a join.
#[derive(Debug, Clone, Copy, PartialEq, Eq, Structural)]
pub enum JoinKind {
    /// `JOIN`
    Plain,
    /// `INNER JOIN`
    Inner,
    /// `LEFT JOIN`
    Left,
    /// `RIGHT JOIN`
    Right,
    /// `FULL JOIN`
    Full,
    /// `CROSS JOIN`
    Cross,
}

/// A join operator: its kind, and whether it is `NATURAL` and `OUTER`.
#[derive(Debug, Clone, Copy, PartialEq, Eq, Structural)]
pub struct Join {
    /// `NATURAL`
    pub natural: bool,
    /// The kind of join.
    pub kind: JoinKind,
    /// `OUTER`
    pub outer: bool,
}

/// The keywords of a join operator.
pub open spec fn join_chunks(j: Join) -> Seq<Chunk> {
    let natural = if j.natural { seq![Chunk::Token(Token::NATURAL)] } else { seq![] };
    let kind = match j.kind {
        JoinKind::Plain => seq![],
        JoinKind::Inner => seq![Chunk::Token(Token::INNER)],
        JoinKind::Left => seq![Chunk::Token(Token::LEFT)],
        JoinKind::Right => seq![Chunk::Token(Token::RIGHT)],
        JoinKind::Full => seq![Chunk::Token(Token::FULL)],
        JoinKind::Cross => seq![Chunk::Token(Token::CROSS)],
    };
    let outer = if j.outer { seq![Chunk::Token(Token::OUTER)] } else { seq![] };
    natural + kind + outer + seq![Chunk::Token(Token::JOIN)]
}

impl Join {
    /// A plain `JOIN`.
    pub fn new() -> (res: Join)
        ensures
            res == (Join { natural: false, kind: JoinKind::Plain, outer: false }),
    {
        Join { natural: false, kind: JoinKind::Plain, outer: false }
    }

    /// Makes the join `NATURAL`.
    pub fn natural(self) -> (res: Join)
        ensures
            res == (Join { natural: true, ..self }),
    {
        Join { natural: true, ..self }
    }

    /// Makes the join an `INNER` join.
    pub fn inner(self) -> (res: Join)
        ensures
            res == (Join { kind: JoinKind::Inner, ..self }),
    {
        Join { kind: JoinKind::Inner, ..self }
    }

    /// Makes the join a `LEFT` join.
    pub fn left(self) -> (res: Join)
        ensures
            res == (Join { kind: JoinKind::Left, ..self }),
    {
        Join { kind: JoinKind::Left, ..self }
    }

    /// Makes the join a `RIGHT` join.
    pub fn right(self) -> (res: Join)
        ensures
            res == (Join { kind: JoinKind::Right, ..self }),
    {
        Join { kind: JoinKind::Right, ..self }
    }

    /// Makes the join a `FULL` join.
    pub fn full(self) -> (res: Join)
        ensures
            res == (Join { kind: JoinKind::Full, ..self }),
    {
        Join { kind: JoinKind::Full, ..self }
    }

    /// Makes the join a `CROSS` join.
    pub fn cross(self) -> (res: Join)
        ensures
            res == (Join { kind: JoinKind::Cross, ..self }),
    {
        Join { kind: JoinKind::Cross, ..self }
    }

    /// Makes the join `OUTER`.
    pub fn outer(self) -> (res: Join)
        ensures
            res == (Join { outer: true, ..self }),
    {
        Join { outer: true, ..self }
    }

    /// The keywords of this join operator, e.g. `NATURAL LEFT OUTER JOIN`.
    pub fn to_sql(&self) -> (res: SQL)
        ensures
            res@ == join_chunks(*self),
    {
        let mut s = SQL::empty();
        if self.natural {
            s = s.push_token(Token::NATURAL);
        }
        match self.kind {
            JoinKind::Plain => {},
            JoinKind::Inner => { s = s.push_token(Token::INNER); },
            JoinKind::Left => { s = s.push_token(Token::LEFT); },
            JoinKind::Right => { s = s.push_token(Token::RIGHT); },
            JoinKind::Full => { s = s.push_token(Token::FULL); },
            JoinKind::Cross => { s = s.push_token(Token::CROSS); },
        }
        if self.outer {
            s = s.push_token(Token::OUTER);
        }
        s.push_token(Token::JOIN)
    }
}

/// `SELECT columns`
pub fn select(columns: SQL) -> (res: SQL)
    ensures
        res@ == seq![Chunk::Token(Token::SELECT)] + columns@,
{
    SQL::token(Token::SELECT).append(columns)
}

/// `SELECT DISTINCT columns`
pub fn select_distinct(columns: SQL) -> (res: SQL)
    ensures
        res@ == seq![Chunk::Token(Token::SELECT), Chunk::Token(Token::DISTINCT)] + columns@,
{
    SQL::token(Token::SELECT).push_token(Token::DISTINCT).append(columns)
}

/// `SELECT DISTINCT ON (on) columns`
pub fn select_distinct_on(on: SQL, columns: SQL) -> (res: SQL)
    ensures
        res@ == seq![
            Chunk::Token(Token::SELECT),
            Chunk::Token(Token::DISTINCT),
            Chunk::Token(Token::ON),
            Chunk::Token(Token::LPAREN),
        ] + on@ + seq![Chunk::Token(Token::RPAREN)] + columns@,
{
    SQL::token(Token::SELECT)
        .push_token(Token::DISTINCT)
        .push_token(Token::ON)
        .push_token(Token::LPAREN)
        .append(on)
        .push_token(Token::RPAREN)
        .append(columns)
}

/// `FROM source`
pub fn from(source: SQL) -> (res: SQL)
    ensures
        res@ == seq![Chunk::Token(Token::FROM)] + source@,
{
    SQL::token(Token::FROM).append(source)
}

/// `WHERE condition`
pub fn where_(condition: SQL) -> (res: SQL)
    ensures
        res@ == seq![Chunk::Token(Token::WHERE)] + condition@,
{
    SQL::token(Token::WHERE).append(condition)
}

/// `GROUP BY e1, e2, ...`
pub fn group_by(expressions: Vec<SQL>) -> (res: SQL)
    ensures
        res@ == seq![Chunk::Token(Token::GROUP), Chunk::Token(Token::BY)] + joined(
            views_of(expressions@),
            Token::COMMA,
        ),
{
    SQL::token(Token::GROUP).push_token(Token::BY).append(SQL::join(expressions, Token::COMMA))
}

/// `HAVING condition`
pub fn having(condition: SQL) -> (res: SQL)
    ensures
        res@ == seq![Chunk::Token(Token::HAVING)] + condition@,
{
    SQL::token(Token::HAVING).append(condition)
}

/// `ORDER BY expressions`
pub fn order_by(expressions: SQL) -> (res: SQL)
    ensures
        res@ == seq![Chunk::Token(Token::ORDER), Chunk::Token(Token::BY)] + expressions@,
{
    SQL::token(Token::ORDER).push_token(Token::BY).append(expressions)
}

/// The keyword `keyword` followed by the number `n`.
fn count(keyword: Token, n: usize) -> (res: SQL)
    ensures
        count_clause(res@, keyword, n as nat),
{
    let mut text = String::new();
    push_nat_text(&mut text, n as u64);
    SQL::token(keyword).push(Chunk::Raw(text))
}

/// `LIMIT n`
pub fn limit(n: usize) -> (res: SQL)
    ensures
        count_clause(res@, Token::LIMIT, n as nat),
{
    count(Token::LIMIT, n)
}

/// `OFFSET n`
pub fn offset(n: usize) -> (res: SQL)
    ensures
        count_clause(res@, Token::OFFSET, n as nat),
{
    count(Token::OFFSET, n)
}

/// `left keyword right`, the two queries combined by a set operator.
fn set_operation(left: SQL, keyword: Token, all: bool, right: SQL) -> (res: SQL)
    ensures
        res@ == left@ + seq![Chunk::Token(keyword)] + (if all {
            seq![Chunk::Token(Token::ALL)]
        } else {
            seq![]
        }) + right@,
{
    let s = left.push_token(keyword);
    let s = if all { s.push_token(Token::ALL) } else { s };
    s.append(right)
}

/// `left UNION right`
pub fn union(left: SQL, right: SQL) -> (res: SQL)
    ensures
        res@ == left@ + seq![Chunk::Token(Token::UNION)] + right@,
{
    set_operation(left, Token::UNION, false, right)
}

/// `left UNION ALL right`
pub fn union_all(left: SQL, right: SQL) -> (res: SQL)
    ensures
        res@ == left@ + seq![Chunk::Token(Token::UNION), Chunk::Token(Token::ALL)] + right@,
{
    set_operation(left, Token::UNION, true, right)
}

/// `left INTERSECT right`
pub fn intersect(left: SQL, right: SQL) -> (res: SQL)
    ensures
        res@ == left@ + seq![Chunk::Token(Token::INTERSECT)] + right@,
{
    set_operation(left, Token::INTERSECT, false, right)
}

/// `left INTERSECT ALL right`
pub fn intersect_all(left: SQL, right: SQL) -> (res: SQL)
    ensures
        res@ == left@ + seq![Chunk::Token(Token::INTERSECT), Chunk::Token(Token::ALL)] + right@,
{
    set_operation(left, Token::INTERSECT, true, right)
}

/// `left EXCEPT right`
pub fn except(left: SQL, right: SQL) -> (res: SQL)
    ensures
        res@ == left@ + seq![Chunk::Token(Token::EXCEPT)] + right@,
{
    set_operation(left, Token::EXCEPT, false, right)
}

/// `left EXCEPT ALL right`
pub fn except_all(left: SQL, right: SQL) -> (res: SQL)
    ensures
        res@ == left@ + seq![Chunk::Token(Token::EXCEPT), Chunk::Token(Token::ALL)] + right@,
{
    set_operation(left, Token::EXCEPT, true, right)
}

/// `INSERT INTO table`
pub fn insert<T: PostgresTable>(table: &T) -> (res: SQL)
    ensures
        res@.len() >= 2,
        res@.take(2) == seq![Chunk::Token(Token::INSERT), Chunk::Token(Token::INTO)],
        names_relation(res@.skip(2), table.spec_name(), table.spec_schema()),
{
    let t = table_sql(table);
    let res = SQL::token(Token::INSERT).push_token(Token::INTO).append(t);
    assert(res@.skip(2) =~= t@);
    res
}

/// `UPDATE table`
pub fn update<T: PostgresTable>(table: &T) -> (res: SQL)
    ensures
        res@.len() >= 1,
        res@[0] == Chunk::Token(Token::UPDATE),
        names_relation(res@.skip(1), table.spec_name(), table.spec_schema()),
{
    let t = table_sql(table);
    let res = SQL::token(Token::UPDATE).append(t);
    assert(res@.skip(1) =~= t@);
    res
}

/// `DELETE FROM table`
pub fn delete<T: PostgresTable>(table: &T) -> (res: SQL)
    ensures
        res@.len() >= 2,
        res@.take(2) == seq![Chunk::Token(Token::DELETE), Chunk::Token(Token::FROM)],
        names_relation(res@.skip(2), table.spec_name(), table.spec_schema()),
{
    let t = table_sql(table);
    let res = SQL::token(Token::DELETE).push_token(Token::FROM).append(t);
    assert(res@.skip(2) =~= t@);
    res
}

/// One `column = value` of an `UPDATE ... SET`.
#[derive(Debug)]
pub struct Assignment {
    /// The column that is assigned.
    pub column: String,
    /// The value it is given.
    pub value: SQL,
}

/// The chunks of one assignment: `"column" = value`.
pub open spec fn assignment_chunks(a: Assignment) -> Seq<Chunk> {
    seq![Chunk::Ident(a.column), Chunk::Token(Token::EQ)] + a.value@
}

/// The chunks of each assignment.
pub open spec fn assignments_chunks(a: Seq<Assignment>) -> Seq<Seq<Chunk>> {
    a.map_values(|x: Assignment| assignment_chunks(x))
}

/// `SET "c1" = v1, "c2" = v2, ...`
pub fn set(assignments: Vec<Assignment>) -> (res: SQL)
    ensures
        res@ == seq![Chunk::Token(Token::SET)] + joined(assignments_chunks(assignments@), Token::COMMA),
{
    let ghost all = assignments@;
    let mut body = SQL::empty();
    let mut first = true;
    for a in it: assignments.into_iter()
        invariant
            it.seq() == all,
            first == (it.index() == 0),
            body@ == joined(assignments_chunks(all.take(it.index() as int)), Token::COMMA),
    {
        let ghost k = it.index();
        assert(assignments_chunks(all.take(k + 1)).drop_last() =~= assignments_chunks(all.take(k)));
        let ghost ac = assignment_chunks(a);
        let one = SQL::chunk(Chunk::Ident(a.column)).push_token(Token::EQ).append(a.value);
        assert(one@ == ac);
        if first {
            body = one;
        } else {
            body = body.push_token(Token::COMMA).append(one);
        }
        first = false;
    }
    assert(all.take(all.len() as int) == all);
    SQL::token(Token::SET).append(body)
}

/// The chunks of a column list: `"c1", "c2", ...`
pub open spec fn column_list(columns: Seq<String>) -> Seq<Chunk> {
    joined(columns.map_values(|c: String| seq![Chunk::Ident(c)]), Token::COMMA)
}

/// The quoted column names `columns`, separated by commas.
pub fn columns_info_to_sql(columns: Vec<String>) -> (res: SQL)
    ensures
        res@ == column_list(columns@),
{
    let ghost all = columns@;
    let mut out = SQL::empty();
    let mut first = true;
    for c in it: columns.into_iter()
        invariant
            it.seq() == all,
            first == (it.index() == 0),
            out@ == column_list(all.take(it.index() as int)),
    {
        let ghost k = it.index();
        assert(all.take(k + 1).map_values(|c: String| seq![Chunk::Ident(c)]).drop_last()
            =~= all.take(k).map_values(|c: String| seq![Chunk::Ident(c)]));
        if first {
            out = SQL::chunk(Chunk::Ident(c));
        } else {
            out = out.push_token(Token::COMMA).push(Chunk::Ident(c));
        }
        first = false;
    }
    assert(all.take(all.len() as int) == all);
    out
}

/// One row of an `INSERT`: the columns it sets and its values, in order.
#[derive(Debug)]
pub struct InsertRow {
    /// The columns the row sets.
    pub columns: Vec<String>,
    /// The values, separated by commas.
    pub values: SQL,
}

/// The parenthesized values of each row.
pub open spec fn row_groups(rows: Seq<InsertRow>) -> Seq<Seq<Chunk>> {
    rows.map_values(
        |r: InsertRow| seq![Chunk::Token(Token::LPAREN)] + r.values@ + seq![Chunk::Token(Token::RPAREN)],
    )
}

/// The `VALUES` part of an `INSERT` for `rows`.
///
/// All rows set the same columns, those of the first row, which name the
/// columns: `("a", "b") VALUES (...), (...)`. Without rows the clause is a
/// bare `VALUES`; with rows that set no column it is `DEFAULT VALUES`.
pub open spec fn values_chunks(rows: Seq<InsertRow>) -> Seq<Chunk> {
    if rows.len() == 0 {
        seq![Chunk::Token(Token::VALUES)]
    } else if rows[0].columns@.len() == 0 {
        seq![Chunk::Token(Token::DEFAULT), Chunk::Token(Token::VALUES)]
    } else {
        seq![Chunk::Token(Token::LPAREN)] + column_list(rows[0].columns@) + seq![
            Chunk::Token(Token::RPAREN),
            Chunk::Token(Token::VALUES),
        ] + joined(row_groups(rows), Token::COMMA)
    }
}

/// The `VALUES` part of an `INSERT` for `rows`; see [`values_chunks`].
pub fn values(rows: Vec<InsertRow>) -> (res: SQL)
    ensures
        res@ == values_chunks(rows@),
{
    if rows.len() == 0 {
        return SQL::token(Token::VALUES);
    }
    if rows[0].columns.len() == 0 {
        return SQL::token(Token::DEFAULT).push_token(Token::VALUES);
    }
    let ghost all = rows@;
    let mut cols = SQL::empty();
    let mut body = SQL::empty();
    let mut first = true;
    for r in it: rows.into_iter()
        invariant
            it.seq() == all,
            all.len() > 0,
            first == (it.index() == 0),
            !first ==> cols@ == column_list(all[0].columns@),
            body@ == joined(row_groups(all.take(it.index() as int)), Token::COMMA),
    {
        let ghost k = it.index();
        assert(row_groups(all.take(k + 1)).drop_last() =~= row_groups(all.take(k)));
        let group = SQL::token(Token::LPAREN).append(r.values).push_token(Token::RPAREN);
        if first {
            cols = columns_info_to_sql(r.columns);
            body = group;
        } else {
            body = body.push_token(Token::COMMA).append(group);
        }
        first = false;
    }
    assert(all.take(all.len() as int) == all);
    cols.parens().push_token(Token::VALUES).append(body)
}

/// `RETURNING columns`
pub fn returning(columns: SQL) -> (res: SQL)
    ensures
        res@ == seq![Chunk::Token(Token::RETURNING)] + columns@,
{
    SQL::token(Token::RETURNING).append(columns)
}

/// `ON CONFLICT [(target)] action`
pub fn on_conflict(target: Option<SQL>, action: SQL) -> (res: SQL)
    ensures
        res@ == seq![Chunk::Token(Token::ON), Chunk::Token(Token::CONFLICT)] + match target {
            Some(t) => seq![Chunk::Token(Token::LPAREN)] + t@ + seq![Chunk::Token(Token::RPAREN)],
            None => seq![],
        } + action@,
{
    let s = SQL::token(Token::ON).push_token(Token::CONFLICT);
    let s = match target {
        Some(t) => s.append(t.parens()),
        None => s,
    };
    s.append(action)
}

/// `FOR UPDATE`
pub fn for_update() -> (res: SQL)
    ensures
        res@ == seq![Chunk::Token(Token::FOR), Chunk::Token(Token::UPDATE)],
{
    SQL::token(Token::FOR).push_token(Token::UPDATE)
}

/// `FOR SHARE`
pub fn for_share() -> (res: SQL)
    ensures
        res@ == seq![Chunk::Token(Token::FOR), Chunk::Token(Token::SHARE)],
{
    SQL::token(Token::FOR).push_token(Token::SHARE)
}

/// `FOR NO KEY UPDATE`
pub fn for_no_key_update() -> (res: SQL)
    ensures
        res@ == seq![
            Chunk::Token(Token::FOR),
            Chunk::Token(Token::NO),
            Chunk::Token(Token::KEY),
            Chunk::Token(Token::UPDATE),
        ],
{
    SQL::token(Token::FOR).push_token(Token::NO).push_token(Token::KEY).push_token(Token::UPDATE)
}

/// `FOR KEY SHARE`
pub fn for_key_share() -> (res: SQL)
    ensures
        res@ == seq![Chunk::Token(Token::FOR), Chunk::Token(Token::KEY), Chunk::Token(Token::SHARE)],
{
    SQL::token(Token::FOR).push_token(Token::KEY).push_token(Token::SHARE)
}

/// `FOR UPDATE OF "table"`, with the table's unqualified name.
pub fn for_update_of(table_name: &str) -> (res: SQL)
    ensures
        res@.len() == 4,
        res@.take(3) == seq![Chunk::Token(Token::FOR), Chunk::Token(Token::UPDATE), Chunk::Token(Token::OF)],
        ident_chunk(res@[3], table_name@),
{
    let res = SQL::token(Token::FOR).push_token(Token::UPDATE).push_token(Token::OF).append(SQL::ident(table_name));
    assert(res@.take(3) =~= seq![Chunk::Token(Token::FOR), Chunk::Token(Token::UPDATE), Chunk::Token(Token::OF)]);
    res
}

/// `FOR SHARE OF "table"`, with the table's unqualified name.
pub fn for_share_of(table_name: &str) -> (res: SQL)
    ensures
        res@.len() == 4,
        res@.take(3) == seq![Chunk::Token(Token::FOR), Chunk::Token(Token::SHARE), Chunk::Token(Token::OF)],
        ident_chunk(res@[3], table_name@),
{
    let res = SQL::token(Token::FOR).push_token(Token::SHARE).push_token(Token::OF).append(SQL::ident(table_name));
    assert(res@.take(3) =~= seq![Chunk::Token(Token::FOR), Chunk::Token(Token::SHARE), Chunk::Token(Token::OF)]);
    res
}

/// `NOWAIT`
pub fn nowait() -> (res: SQL)
    ensures
        res@ == seq![Chunk::Token(Token::NOWAIT)],
{
    SQL::token(Token::NOWAIT)
}

/// `SKIP LOCKED`
pub fn skip_locked() -> (res: SQL)
    ensures
        res@ == seq![Chunk::Token(Token::SKIP), Chunk::Token(Token::LOCKED)],
{
    SQL::token(Token::SKIP).push_token(Token::LOCKED)
}

/// `s` is `join table USING (columns)`: the join keywords of `j`, the table
/// named `name` in `schema`, and the column list in parentheses.
pub open spec fn join_using_shape(
    s: Seq<Chunk>,
    j: Join,
    name: Seq<char>,
    schema: Option<Seq<char>>,
    columns: Seq<Chunk>,
) -> bool {
    let head = join_chunks(j);
    let tail = seq![Chunk::Token(Token::USING), Chunk::Token(Token::LPAREN)] + columns + seq![
        Chunk::Token(Token::RPAREN),
    ];
    &&& s.len() >= head.len() + tail.len()
    &&& s.take(head.len() as int) == head
    &&& names_relation(s.subrange(head.len() as int, s.len() - tail.len()), name, schema)
    &&& s.skip(s.len() - tail.len()) == tail
}

/// `join table USING (columns)`
pub fn join_using_internal<T: PostgresTable>(table: &T, join: Join, columns: SQL) -> (res: SQL)
    ensures
        join_using_shape(res@, join, table.spec_name(), table.spec_schema(), columns@),
{
    let ghost cols = columns@;
    let j = join.to_sql();
    let t = table_sql(table);
    let ghost jv = j@;
    let ghost tv = t@;
    let tail = SQL::token(Token::USING).push_token(Token::LPAREN).append(columns).push_token(Token::RPAREN);
    let ghost tailv = tail@;
    assert(tailv =~= seq![Chunk::Token(Token::USING), Chunk::Token(Token::LPAREN)] + cols + seq![
        Chunk::Token(Token::RPAREN),
    ]);
    let res = j.append(t).append(tail);
    assert(res@ == jv + tv + tailv);
    assert(res@.take(jv.len() as int) =~= jv);
    assert(res@.subrange(jv.len() as int, res@.len() - tailv.len()) =~= tv);
    assert(res@.skip(res@.len() - tailv.len()) =~= tailv);
    res
}

/// `JOIN table USING (columns)`
pub fn join_using<T: PostgresTable>(table: &T, columns: SQL) -> (res: SQL)
    ensures
        join_using_shape(
            res@,
            Join { natural: false, kind: JoinKind::Plain, outer: false },
            table.spec_name(),
            table.spec_schema(),
            columns@,
        ),
{
    join_using_internal(table, Join::new(), columns)
}

/// `INNER JOIN table USING (columns)`
pub fn inner_join_using<T: PostgresTable>(table: &T, columns: SQL) -> (res: SQL)
    ensures
        join_using_shape(
            res@,
            Join { natural: false, kind: JoinKind::Inner, outer: false },
            table.spec_name(),
            table.spec_schema(),
            columns@,
        ),
{
    join_using_internal(table, Join::new().inner(), columns)
}

/// `LEFT JOIN table USING (columns)`
pub fn left_join_using<T: PostgresTable>(table: &T, columns: SQL) -> (res: SQL)
    ensures
        join_using_shape(
            res@,
            Join { natural: false, kind: JoinKind::Left, outer: false },
            table.spec_name(),
            table.spec_schema(),
            columns@,
        ),
{
    join_using_internal(table, Join::new().left(), columns)
}

/// `LEFT OUTER JOIN table USING (columns)`
pub fn left_outer_join_using<T: PostgresTable>(table: &T, columns: SQL) -> (res: SQL)
    ensures
        join_using_shape(
            res@,
            Join { natural: false, kind: JoinKind::Left, outer: true },
            table.spec_name(),
            table.spec_schema(),
            columns@,
        ),
{
    join_using_internal(table, Join::new().left().outer(), columns)
}

/// `RIGHT JOIN table USING (columns)`
pub fn right_join_using<T: PostgresTable>(table: &T, columns: SQL) -> (res: SQL)
    ensures
        join_using_shape(
            res@,
            Join { natural: false, kind: JoinKind::Right, outer: false },
            table.spec_name(),
            table.spec_schema(),
            columns@,
        ),
{
    join_using_internal(table, Join::new().right(), columns)
}

/// `RIGHT OUTER JOIN table USING (columns)`
pub fn right_outer_join_using<T: PostgresTable>(table: &T, columns: SQL) -> (res: SQL)
    ensures
        join_using_shape(
            res@,
            Join { natural: false, kind: JoinKind::Right, outer: true },
            table.spec_name(),
            table.spec_schema(),
            columns@,
        ),
{
    join_using_internal(table, Join::new().right().outer(), columns)
}

/// `FULL JOIN table USING (columns)`
pub fn full_join_using<T: PostgresTable>(table: &T, columns: SQL) -> (res: SQL)
    ensures
        join_using_shape(
            res@,
            Join { natural: false, kind: JoinKind::Full, outer: false },
            table.spec_name(),
            table.spec_schema(),
            columns@,
        ),
{
    join_using_internal(table, Join::new().full(), columns)
}

/// `FULL OUTER JOIN table USING (columns)`
pub fn full_outer_join_using<T: PostgresTable>(table: &T, columns: SQL) -> (res: SQL)
    ensures
        join_using_shape(
            res@,
            Join { natural: false, kind: JoinKind::Full, outer: true },
            table.spec_name(),
            table.spec_schema(),
            columns@,
        ),
{
    join_using_internal(table, Join::new().full().outer(), columns)
}

/// The `ON condition` that follows a joined table, if any.
pub open spec fn join_condition(on: Option<Seq<Chunk>>) -> Seq<Chunk> {
    match on {
        Some(c) => seq![Chunk::Token(Token::ON)] + c,
        None => seq![],
    }
}

/// `s` is `join table [ON condition]`.
pub open spec fn join_on_shape(
    s: Seq<Chunk>,
    j: Join,
    name: Seq<char>,
    schema: Option<Seq<char>>,
    on: Option<Seq<Chunk>>,
) -> bool {
    let head = join_chunks(j);
    let tail = join_condition(on);
    &&& s.len() >= head.len() + tail.len()
    &&& s.take(head.len() as int) == head
    &&& names_relation(s.subrange(head.len() as int, s.len() - tail.len()), name, schema)
    &&& s.skip(s.len() - tail.len()) == tail
}

/// The fragments of an optional fragment.
pub open spec fn opt_view(o: Option<SQL>) -> Option<Seq<Chunk>> {
    match o {
        Some(c) => Some(c@),
        None => None,
    }
}

/// `join table [ON condition]`
pub fn join_on<T: PostgresTable>(table: &T, join: Join, on: Option<SQL>) -> (res: SQL)
    ensures
        join_on_shape(res@, join, table.spec_name(), table.spec_schema(), opt_view(on)),
{
    let ghost cond = opt_view(on);
    let j = join.to_sql();
    let t = table_sql(table);
    let ghost jv = j@;
    let ghost tv = t@;
    let tail = match on {
        Some(c) => SQL::token(Token::ON).append(c),
        None => SQL::empty(),
    };
    let ghost tailv = tail@;
    assert(tailv =~= join_condition(cond));
    let res = j.append(t).append(tail);
    assert(res@ == jv + tv + tailv);
    assert(res@.take(jv.len() as int) =~= jv);
    assert(res@.subrange(jv.len() as int, res@.len() - tailv.len()) =~= tv);
    assert(res@.skip(res@.len() - tailv.len()) =~= tailv);
    res
}

} // verus!
