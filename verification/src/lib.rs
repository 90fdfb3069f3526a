//! Building SQL text from typed parts.
//!
//! A [`SqlColumn`] writes conditions, aggregates and ordering terms about
//! itself; a [`SqlValue`] writes itself as a literal; [`Select`] gathers
//! fragments into one `SELECT` statement; `join_and` and `join_or` hold
//! conditions together. Every function states the exact text it returns.

pub mod decimal;
pub mod select;
pub mod sql_column;
pub mod sql_table;
pub mod sql_value;
pub mod text;

pub use select::Select;
pub use sql_column::SqlColumn;
pub use sql_table::SqlTable;
pub use sql_value::SqlValue;

use vstd::prelude::*;
use crate::sql_value::{debug_quoted, quote};
use crate::text::{
    aliased,
    call,
    call_of,
    conjunction,
    disjunction,
    join,
    join_parenthesized,
    joined,
    parenthesized,
    texts,
    with_alias,
};

verus! {

/// `[A, B, C]` gives `(A) AND (B) AND (C)`; no condition gives the empty
/// string.
pub fn join_and(cond: Vec<String>) -> (sql: String)
    ensures
        sql@ == conjunction(texts(cond@)),
{
    join_parenthesized(&cond, " AND ")
}

/// `[A, B, C]` gives `(A) OR (B) OR (C)`; no condition gives the empty
/// string.
pub fn join_or(cond: Vec<String>) -> (sql: String)
    ensures
        sql@ == disjunction(texts(cond@)),
{
    join_parenthesized(&cond, " OR ")
}

/// `COALESCE({exprs})`, the expressions separated by a comma and a space.
pub fn coalesce(exprs: Vec<String>) -> (sql: String)
    ensures
        sql@ == call("COALESCE"@, joined(texts(exprs@), ", "@)),
{
    let list = join(&exprs, ", ");
    call_of("COALESCE", list.as_str())
}

/// `COALESCE({exprs}) AS {alias}`, the alias quoted as an identifier.
pub fn coalesce_as(alias: &str, exprs: Vec<String>) -> (sql: String)
    ensures
        sql@ == aliased(call("COALESCE"@, joined(texts(exprs@), ", "@)), debug_quoted(alias@)),
{
    let name = quote(alias);
    with_alias(coalesce(exprs).as_str(), name.as_str())
}

/// Joining no condition gives the empty text, one condition gives that
/// condition in brackets, and two give both in brackets around the keyword.
/// The same holds for `OR`.
pub proof fn lemma_join_small(a: Seq<char>, b: Seq<char>)
    ensures
        conjunction(Seq::empty()) == Seq::<char>::empty(),
        disjunction(Seq::empty()) == Seq::<char>::empty(),
        conjunction(seq![a]) == parenthesized(a),
        disjunction(seq![a]) == parenthesized(a),
        conjunction(seq![a, b]) == parenthesized(a) + " AND "@ + parenthesized(b),
        disjunction(seq![a, b]) == parenthesized(a) + " OR "@ + parenthesized(b),
{
    let two = crate::text::each_parenthesized(seq![a, b]);
    let one = crate::text::each_parenthesized(seq![a]);
    assert(two.drop_last() =~= one);
    assert(joined(one, " AND "@) == parenthesized(a));
    assert(joined(one, " OR "@) == parenthesized(a));
}

} // verus!
