//! One column of a table, and the SQL fragments that speak of it.

use vstd::prelude::*;
use vstd::string::*;
use crate::sql_value::{debug_quoted, quote, SqlValue};
use crate::text::{aliased, call, call_of, concat3, join, joined, texts, with_alias};

verus! {

/// A column as queries see it.
///
/// `name` and `table_name` hold the identifiers as they are written in SQL,
/// quotes included (`"\"id\""`, `"\"User\""`). A column never escapes its own
/// identifiers again: it writes them as they are, and escapes only the
/// values and aliases handed to it.
#[derive(Clone, Copy)]
pub struct SqlColumn {
    pub name: &'static str,
    pub table_name: &'static str,
    pub is_primary: bool,
}

/// Whether `s` begins and ends with the same quote character, single or
/// double, around the rest.
pub open spec fn is_quoted(s: Seq<char>) -> bool {
    &&& s.len() >= 2
    &&& (s.first() == '"' && s.last() == '"') || (s.first() == '\'' && s.last() == '\'')
}

/// `s` without the pair of quotes around it, if it has one.
pub open spec fn unquoted(s: Seq<char>) -> Seq<char> {
    if is_quoted(s) {
        s.subrange(1, s.len() - 1)
    } else {
        s
    }
}

/// `reference op literal`.
pub open spec fn comparison(reference: Seq<char>, op: Seq<char>, literal: Seq<char>) -> Seq<char> {
    reference + " "@ + op + " "@ + literal
}

/// The literal of every value of `values`, in order.
pub open spec fn literals<V: SqlValue>(values: Seq<V>) -> Seq<Seq<char>> {
    Seq::new(values.len(), |i: int| values[i].sql_text())
}

/// `reference keyword (l1,l2,...)`, or `otherwise` when there is no literal
/// to list.
pub open spec fn listing(
    reference: Seq<char>,
    keyword: Seq<char>,
    literals: Seq<Seq<char>>,
    otherwise: Seq<char>,
) -> Seq<char> {
    if literals.len() == 0 {
        otherwise
    } else {
        reference + " "@ + keyword + " ("@ + joined(literals, ","@) + ")"@
    }
}

/// `reference BETWEEN (low) AND (high)`.
pub open spec fn between_text(reference: Seq<char>, low: Seq<char>, high: Seq<char>) -> Seq<
    char,
> {
    reference + " BETWEEN ("@ + low + ") AND ("@ + high + ")"@
}

/// A list of values is written in the order given, the literals separated
/// by commas and nothing else; a list of nothing is written as the
/// predicate chosen for it, never as a pair of brackets with nothing inside.
pub proof fn lemma_listing(
    reference: Seq<char>,
    keyword: Seq<char>,
    literals: Seq<Seq<char>>,
    last: Seq<char>,
    otherwise: Seq<char>,
)
    ensures
        listing(reference, keyword, Seq::empty(), otherwise) == otherwise,
        listing(reference, keyword, seq![last], otherwise) == reference + " "@ + keyword + " ("@
            + last + ")"@,
        literals.len() > 0 ==> listing(reference, keyword, literals.push(last), otherwise)
            == reference + " "@ + keyword + " ("@ + joined(literals, ","@) + ","@ + last + ")"@,
{
    if literals.len() > 0 {
        crate::text::lemma_joined_push(literals, ","@, last);
        let head = reference + " "@ + keyword + " ("@;
        assert(head + (joined(literals, ","@) + ","@ + last) + ")"@ =~= head + joined(
            literals,
            ","@,
        ) + ","@ + last + ")"@);
    }
}

fn trim_quotes(s: &'static str) -> (inner: &'static str)
    ensures
        inner@ == unquoted(s@),
{
    let len: usize = s.unicode_len();
    if len >= 2 {
        let first = s.get_char(0);
        let last = s.get_char(len - 1);
        if (first == '"' && last == '"') || (first == '\'' && last == '\'') {
            return s.substring_char(1, len - 1);
        }
    }
    s
}

fn compare(reference: &str, op: &str, literal: &str) -> (sql: String)
    ensures
        sql@ == comparison(reference@, op@, literal@),
{
    let mut sql = String::from_str(reference);
    sql.append(" ");
    sql.append(op);
    sql.append(" ");
    sql.append(literal);
    sql
}

fn render_all<V: SqlValue>(values: &Vec<V>) -> (rendered: Vec<String>)
    ensures
        texts(rendered@) == literals(values@),
{
    let mut rendered: Vec<String> = Vec::new();
    let mut i: usize = 0;
    while i < values.len()
        invariant
            i <= values.len(),
            rendered@.len() == i,
            forall|k: int| 0 <= k < i ==> (#[trigger] rendered@[k])@ == values@[k].sql_text(),
        decreases values.len() - i,
    {
        rendered.push(values[i].to_sql());
        i += 1;
    }
    assert(texts(rendered@) =~= literals(values@));
    rendered
}

fn list(reference: &str, keyword: &str, rendered: &Vec<String>, otherwise: &str) -> (sql: String)
    ensures
        sql@ == listing(reference@, keyword@, texts(rendered@), otherwise@),
{
    if rendered.len() == 0 {
        String::from_str(otherwise)
    } else {
        let items = join(rendered, ",");
        let mut sql = String::from_str(reference);
        sql.append(" ");
        sql.append(keyword);
        sql.append(" (");
        sql.append(items.as_str());
        sql.append(")");
        sql
    }
}

impl SqlValue for SqlColumn {
    open spec fn sql_text(&self) -> Seq<char> {
        self.reference()
    }

    fn to_sql(&self) -> (sql: String) {
        concat3(self.table_name, ".", self.name)
    }
}

/// The conversion is stated by the contract of `from` below, over the text
/// of the result; no string is named here.
impl vstd::std_specs::convert::FromSpecImpl<SqlColumn> for String {
    open spec fn obeys_from_spec() -> bool {
        false
    }

    open spec fn from_spec(value: SqlColumn) -> String {
        arbitrary()
    }
}

impl From<SqlColumn> for String {
    fn from(value: SqlColumn) -> (sql: String)
        ensures
            sql@ == value.reference(),
    {
        value.to_sql()
    }
}

impl SqlColumn {
    /// `table.column`, from the identifiers as they are held.
    pub open spec fn reference(&self) -> Seq<char> {
        self.table_name@ + "."@ + self.name@
    }

    /// A column of the table `table_name`. Both identifiers are taken as
    /// they will be written in SQL: the caller has quoted them.
    pub fn new(name: &'static str, table_name: &'static str, is_primary: bool) -> (column: Self)
        ensures
            column.name@ == name@,
            column.table_name@ == table_name@,
            column.is_primary == is_primary,
    {
        Self { name, table_name, is_primary }
    }

    /// The column's name without the quotes around it.
    pub fn name(&self) -> (bare: &'static str)
        ensures
            bare@ == unquoted(self.name@),
    {
        trim_quotes(self.name)
    }

    /// The table's name without the quotes around it.
    pub fn table_name(&self) -> (bare: &'static str)
        ensures
            bare@ == unquoted(self.table_name@),
    {
        trim_quotes(self.table_name)
    }

    /// Whether the column is the table's primary key.
    pub fn is_primary(&self) -> (primary: bool)
        ensures
            primary == self.is_primary,
    {
        self.is_primary
    }

    /// `{column} AS {alias}`, the alias quoted as an identifier.
    pub fn alias(self, alias: &str) -> (sql: String)
        ensures
            sql@ == aliased(self.reference(), debug_quoted(alias@)),
    {
        let reference = self.to_sql();
        let name = quote(alias);
        with_alias(reference.as_str(), name.as_str())
    }

    /// `COUNT({column})`.
    pub fn count(self) -> (sql: String)
        ensures
            sql@ == call("COUNT"@, self.reference()),
    {
        let reference = self.to_sql();
        call_of("COUNT", reference.as_str())
    }

    /// `COUNT({column}) AS {alias}`, the alias quoted as an identifier.
    pub fn count_as(self, alias: &str) -> (sql: String)
        ensures
            sql@ == aliased(call("COUNT"@, self.reference()), debug_quoted(alias@)),
    {
        let name = quote(alias);
        with_alias(self.count().as_str(), name.as_str())
    }

    /// `SUM({column})`.
    pub fn sum(self) -> (sql: String)
        ensures
            sql@ == call("SUM"@, self.reference()),
    {
        let reference = self.to_sql();
        call_of("SUM", reference.as_str())
    }

    /// `SUM({column}) AS {alias}`, the alias quoted as an identifier.
    pub fn sum_as(self, alias: &str) -> (sql: String)
        ensures
            sql@ == aliased(call("SUM"@, self.reference()), debug_quoted(alias@)),
    {
        let name = quote(alias);
        with_alias(self.sum().as_str(), name.as_str())
    }

    /// `AVG({column})`.
    pub fn avg(self) -> (sql: String)
        ensures
            sql@ == call("AVG"@, self.reference()),
    {
        let reference = self.to_sql();
        call_of("AVG", reference.as_str())
    }

    /// `AVG({column}) AS {alias}`, the alias quoted as an identifier.
    pub fn avg_as(self, alias: &str) -> (sql: String)
        ensures
            sql@ == aliased(call("AVG"@, self.reference()), debug_quoted(alias@)),
    {
        let name = quote(alias);
        with_alias(self.avg().as_str(), name.as_str())
    }

    /// `MIN({column})`.
    pub fn min(self) -> (sql: String)
        ensures
            sql@ == call("MIN"@, self.reference()),
    {
        let reference = self.to_sql();
        call_of("MIN", reference.as_str())
    }

    /// `MIN({column}) AS {alias}`, the alias quoted as an identifier.
    pub fn min_as(self, alias: &str) -> (sql: String)
        ensures
            sql@ == aliased(call("MIN"@, self.reference()), debug_quoted(alias@)),
    {
        let name = quote(alias);
        with_alias(self.min().as_str(), name.as_str())
    }

    /// `MAX({column})`.
    pub fn max(self) -> (sql: String)
        ensures
            sql@ == call("MAX"@, self.reference()),
    {
        let reference = self.to_sql();
        call_of("MAX", reference.as_str())
    }

    /// `MAX({column}) AS {alias}`, the alias quoted as an identifier.
    pub fn max_as(self, alias: &str) -> (sql: String)
        ensures
            sql@ == aliased(call("MAX"@, self.reference()), debug_quoted(alias@)),
    {
        let name = quote(alias);
        with_alias(self.max().as_str(), name.as_str())
    }

    /// `{column} ASC`, for ordering.
    pub fn asc(self) -> (sql: String)
        ensures
            sql@ == self.reference() + " ASC"@,
    {
        concat3(self.table_name, ".", self.name).concat(" ASC")
    }

    /// `{column} DESC`, for ordering.
    pub fn desc(self) -> (sql: String)
        ensures
            sql@ == self.reference() + " DESC"@,
    {
        concat3(self.table_name, ".", self.name).concat(" DESC")
    }

    /// `{column} IS NULL`.
    pub fn is_null(self) -> (sql: String)
        ensures
            sql@ == self.reference() + " IS NULL"@,
    {
        concat3(self.table_name, ".", self.name).concat(" IS NULL")
    }

    /// `{column} IS NOT NULL`.
    pub fn is_not_null(self) -> (sql: String)
        ensures
            sql@ == self.reference() + " IS NOT NULL"@,
    {
        concat3(self.table_name, ".", self.name).concat(" IS NOT NULL")
    }

    /// `{column} = {value}`.
    pub fn eq<V: SqlValue>(self, value: V) -> (sql: String)
        ensures
            sql@ == comparison(self.reference(), "="@, value.sql_text()),
    {
        compare(self.to_sql().as_str(), "=", value.to_sql().as_str())
    }

    /// `{column} != {value}`.
    pub fn ne<V: SqlValue>(self, value: V) -> (sql: String)
        ensures
            sql@ == comparison(self.reference(), "!="@, value.sql_text()),
    {
        compare(self.to_sql().as_str(), "!=", value.to_sql().as_str())
    }

    /// `{column} > {value}`.
    pub fn gt<V: SqlValue>(self, value: V) -> (sql: String)
        ensures
            sql@ == comparison(self.reference(), ">"@, value.sql_text()),
    {
        compare(self.to_sql().as_str(), ">", value.to_sql().as_str())
    }

    /// `{column} >= {value}`.
    pub fn ge<V: SqlValue>(self, value: V) -> (sql: String)
        ensures
            sql@ == comparison(self.reference(), ">="@, value.sql_text()),
    {
        compare(self.to_sql().as_str(), ">=", value.to_sql().as_str())
    }

    /// `{column} < {value}`.
    pub fn lt<V: SqlValue>(self, value: V) -> (sql: String)
        ensures
            sql@ == comparison(self.reference(), "<"@, value.sql_text()),
    {
        compare(self.to_sql().as_str(), "<", value.to_sql().as_str())
    }

    /// `{column} <= {value}`.
    pub fn le<V: SqlValue>(self, value: V) -> (sql: String)
        ensures
            sql@ == comparison(self.reference(), "<="@, value.sql_text()),
    {
        compare(self.to_sql().as_str(), "<=", value.to_sql().as_str())
    }

    /// `{column} LIKE {value}`.
    pub fn like<V: SqlValue>(self, value: V) -> (sql: String)
        ensures
            sql@ == comparison(self.reference(), "LIKE"@, value.sql_text()),
    {
        compare(self.to_sql().as_str(), "LIKE", value.to_sql().as_str())
    }

    /// `{column} NOT LIKE {value}`.
    pub fn not_like<V: SqlValue>(self, value: V) -> (sql: String)
        ensures
            sql@ == comparison(self.reference(), "NOT LIKE"@, value.sql_text()),
    {
        compare(self.to_sql().as_str(), "NOT LIKE", value.to_sql().as_str())
    }

    /// `{column} IN (v1,v2,...)` with the values in the order given; with no
    /// value at all, the predicate that never holds, `false`.
    pub fn in_list<V: SqlValue>(self, values: Vec<V>) -> (sql: String)
        ensures
            sql@ == listing(self.reference(), "IN"@, literals(values@), "false"@),
    {
        let rendered = render_all(&values);
        list(self.to_sql().as_str(), "IN", &rendered, "false")
    }

    /// `{column} NOT IN (v1,v2,...)` with the values in the order given; with
    /// no value at all, the predicate that always holds, `true`.
    pub fn not_in_list<V: SqlValue>(self, values: Vec<V>) -> (sql: String)
        ensures
            sql@ == listing(self.reference(), "NOT IN"@, literals(values@), "true"@),
    {
        let rendered = render_all(&values);
        list(self.to_sql().as_str(), "NOT IN", &rendered, "true")
    }

    /// `{column} BETWEEN ({low}) AND ({high})`.
    pub fn between<L: SqlValue, R: SqlValue>(self, left: L, right: R) -> (sql: String)
        ensures
            sql@ == between_text(self.reference(), left.sql_text(), right.sql_text()),
    {
        let mut sql = self.to_sql();
        sql.append(" BETWEEN (");
        sql.append(left.to_sql().as_str());
        sql.append(") AND (");
        sql.append(right.to_sql().as_str());
        sql.append(")");
        sql
    }
}

} // verus!
