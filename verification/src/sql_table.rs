//! A table as queries see it: its name and its columns, in the order in
//! which they were declared.

use vstd::prelude::*;
use vstd::string::*;
use crate::sql_column::{unquoted, SqlColumn};
use crate::text::same_text;

verus! {

/// The name of `column` without the quotes around it.
pub open spec fn bare_name(column: SqlColumn) -> Seq<char> {
    unquoted(column.name@)
}

/// Whether some column of `columns` is called `name`.
pub open spec fn has_named(columns: Seq<SqlColumn>, name: Seq<char>) -> bool {
    exists|i: int| 0 <= i < columns.len() && #[trigger] bare_name(columns[i]) == name
}

/// Whether `i` is the place of the first column of `columns` called `name`.
pub open spec fn is_first_named(columns: Seq<SqlColumn>, name: Seq<char>, i: int) -> bool {
    &&& 0 <= i < columns.len()
    &&& bare_name(columns[i]) == name
    &&& forall|j: int| 0 <= j < i ==> #[trigger] bare_name(columns[j]) != name
}

/// What a table's columns must keep: no two columns share a name, and at
/// most one of them is the primary key.
pub open spec fn well_formed(columns: Seq<SqlColumn>) -> bool {
    &&& forall|i: int, j: int|
        0 <= i < j < columns.len() ==> #[trigger] bare_name(columns[i]) != #[trigger] bare_name(
            columns[j],
        )
    &&& forall|i: int, j: int|
        0 <= i < j < columns.len() ==> !(#[trigger] columns[i].is_primary
            && #[trigger] columns[j].is_primary)
}

/// A type that stands for a table.
pub trait SqlTable: Default {
    /// The table's name as it is written in SQL, quotes included
    /// (`"\"User\""`).
    const TABLE_NAME: &'static str;

    /// The table's columns, in the order in which they were declared.
    const COLUMNS: &'static [SqlColumn];

    /// A value of the type, to name the table where a query is built. What
    /// it holds is of no account.
    fn as_table() -> (table: Self)
        ensures
            call_ensures(Self::default, (), table),
    {
        Self::default()
    }

    /// Whether the table has a column called `name`.
    fn has_column(name: &str) -> (found: bool)
        ensures
            found == has_named(Self::COLUMNS@, name@),
    {
        Self::column_index(name).is_some()
    }

    /// The place of the column called `name` among the table's columns:
    /// the first one of that name, counting from zero.
    fn column_index(name: &str) -> (place: Option<usize>)
        ensures
            match place {
                Some(i) => is_first_named(Self::COLUMNS@, name@, i as int),
                None => !has_named(Self::COLUMNS@, name@),
            },
    {
        let mut i: usize = 0;
        while i < Self::COLUMNS.len()
            invariant
                i <= Self::COLUMNS@.len(),
                forall|j: int| 0 <= j < i ==> #[trigger] bare_name(Self::COLUMNS@[j]) != name@,
            decreases Self::COLUMNS@.len() - i,
        {
            if same_text(Self::COLUMNS[i].name(), name) {
                return Some(i);
            }
            i += 1;
        }
        None
    }

    /// The name of the column at place `index`, if the table has that many
    /// columns.
    fn column_name_at(index: usize) -> (name: Option<&'static str>)
        ensures
            match name {
                Some(bare) => index < Self::COLUMNS@.len() && bare@ == bare_name(
                    Self::COLUMNS@[index as int],
                ),
                None => index >= Self::COLUMNS@.len(),
            },
    {
        if index < Self::COLUMNS.len() {
            Some(Self::COLUMNS[index].name())
        } else {
            None
        }
    }
}

/// In a table whose columns keep `well_formed`, looking a column up by its
/// own name finds that very column: names and places correspond one to one.
pub proof fn lemma_name_finds_its_column(columns: Seq<SqlColumn>, i: int)
    requires
        well_formed(columns),
        0 <= i < columns.len(),
    ensures
        is_first_named(columns, bare_name(columns[i]), i),
        forall|j: int| is_first_named(columns, bare_name(columns[i]), j) ==> j == i,
{
}

} // verus!
