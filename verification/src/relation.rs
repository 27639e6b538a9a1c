//! Tables and views named by schema-qualified names.
use vstd::prelude::*;

use crate::sql::{Chunk, SQL, Token, ident_chunk};
use crate::text::{chars_of, push_str};

verus! {

/// The text of an optional string.
pub open spec fn opt_text(o: Option<&str>) -> Option<Seq<char>> {
    match o {
        Some(s) => Some(s@),
        None => None,
    }
}

/// A name in schema `schema` is written schema-qualified: every schema but
/// `public`, which the search path finds by itself.
pub open spec fn qualifies(schema: Option<Seq<char>>) -> bool {
    schema matches Some(s) && s != "public"@
}

/// `s` names the relation `name` of schema `schema`: `"schema"."name"`, or
/// `"name"` alone when the schema need not be written.
pub open spec fn names_relation(s: Seq<Chunk>, name: Seq<char>, schema: Option<Seq<char>>) -> bool {
    if qualifies(schema) {
        &&& s.len() == 3
        &&& ident_chunk(s[0], schema.unwrap())
        &&& s[1] == Chunk::Token(Token::DOT)
        &&& ident_chunk(s[2], name)
    } else {
        &&& s.len() == 1
        &&& ident_chunk(s[0], name)
    }
}

/// A table that queries can name.
pub trait PostgresTable {
    /// The table's name.
    spec fn spec_name(&self) -> Seq<char>;

    /// The table's schema, if it has one.
    spec fn spec_schema(&self) -> Option<Seq<char>>;

    /// The table's name.
    fn name(&self) -> (res: &str)
        ensures
            res@ == self.spec_name(),
    ;

    /// The table's schema, if it has one.
    fn schema(&self) -> (res: Option<&str>)
        ensures
            opt_text(res) == self.spec_schema(),
    ;
}

/// A table or view: its name and the schema it lives in.
#[derive(Debug)]
pub struct Relation {
    /// The name of the table or view.
    pub name: String,
    /// The schema, if one was given.
    pub schema: Option<String>,
}

impl Relation {
    /// The relation `name` in schema `schema`.
    pub fn new(name: &str, schema: Option<&str>) -> (res: Relation)
        ensures
            res.name@ == name@,
            res.schema matches Some(s) ==> schema matches Some(t) && s@ == t@,
            res.schema is None <==> schema is None,
    {
        let mut n = String::new();
        push_str(&mut n, name);
        let sc = match schema {
            Some(t) => {
                let mut s = String::new();
                push_str(&mut s, t);
                Some(s)
            },
            None => None,
        };
        Relation { name: n, schema: sc }
    }
}

impl PostgresTable for Relation {
    open spec fn spec_name(&self) -> Seq<char> {
        self.name@
    }

    open spec fn spec_schema(&self) -> Option<Seq<char>> {
        match &self.schema {
            Some(s) => Some(s@),
            None => None,
        }
    }

    fn name(&self) -> (res: &str) {
        self.name.as_str()
    }

    fn schema(&self) -> (res: Option<&str>) {
        match &self.schema {
            Some(s) => Some(s.as_str()),
            None => None,
        }
    }
}

/// Whether `s` is the text `public`.
fn is_public(s: &str) -> (res: bool)
    ensures
        res == (s@ == "public"@),
{
    proof {
        reveal_strlit("public");
    }
    let cs = chars_of(s);
    if cs.len() != 6 {
        return false;
    }
    let ok = cs[0] == 'p' && cs[1] == 'u' && cs[2] == 'b' && cs[3] == 'l' && cs[4] == 'i' && cs[5] == 'c';
    if ok {
        assert(cs@ =~= "public"@);
    } else {
        assert(cs@ != "public"@) by {
            if cs@ == "public"@ {
                assert(cs@[0] == 'p');
                assert(cs@[1] == 'u');
                assert(cs@[2] == 'b');
                assert(cs@[3] == 'l');
                assert(cs@[4] == 'i');
                assert(cs@[5] == 'c');
            }
        }
    }
    ok
}

/// The fragment naming the relation `name` of schema `schema`.
pub fn qualified_name(name: &str, schema: Option<&str>) -> (res: SQL)
    ensures
        names_relation(res@, name@, opt_text(schema)),
{
    match schema {
        Some(s) => {
            if is_public(s) {
                SQL::ident(name)
            } else {
                SQL::ident(s).push_token(Token::DOT).append(SQL::ident(name))
            }
        },
        None => SQL::ident(name),
    }
}

/// The fragment naming the table `table`.
pub fn table_sql<T: PostgresTable>(table: &T) -> (res: SQL)
    ensures
        names_relation(res@, table.spec_name(), table.spec_schema()),
{
    qualified_name(table.name(), table.schema())
}

} // verus!
