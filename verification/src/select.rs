//! The accumulator of a `SELECT` statement and its rendering.

use vstd::prelude::*;
use vstd::string::*;
use crate::decimal::{nat_text, push_decimal};
use crate::sql_table::SqlTable;
use crate::text::{conjunction, join_parenthesized, parenthesized, texts};

verus! {

/// What a `Select` has gathered so far, as plain text.
pub struct SelectView {
    /// The selected columns, separated by commas.
    pub columns: Seq<char>,
    /// The base table followed by the joins made to it; empty until a base
    /// table is set.
    pub table: Seq<char>,
    /// The conditions of `WHERE`, in the order given.
    pub cond: Seq<Seq<char>>,
    /// The grouping columns, separated by commas.
    pub group_by: Seq<char>,
    /// The conditions of `HAVING`, in the order given.
    pub having: Seq<Seq<char>>,
    /// The ordering terms, separated by commas.
    pub order_by: Seq<char>,
    /// The greatest number of rows asked for, if any.
    pub limit: Option<u32>,
    /// The number of rows to pass over, if any.
    pub offset: Option<u32>,
}

/// `list` with `item` added: after a comma when the list holds something
/// already, alone when it does not.
pub open spec fn listed(list: Seq<char>, item: Seq<char>) -> Seq<char> {
    if list.len() == 0 {
        item
    } else {
        list + ","@ + item
    }
}

/// `list` with every item of `items` added in turn.
pub open spec fn listed_all(list: Seq<char>, items: Seq<Seq<char>>) -> Seq<char>
    decreases items.len(),
{
    if items.len() == 0 {
        list
    } else {
        listed(listed_all(list, items.drop_last()), items.last())
    }
}

/// `table` with one more join: `{table} {kind} JOIN {other} ON {on}`, the
/// conditions of `on` each in brackets and held together by `AND`.
pub open spec fn joined_table(
    table: Seq<char>,
    kind: Seq<char>,
    other: Seq<char>,
    on: Seq<Seq<char>>,
) -> Seq<char> {
    table + " "@ + kind + " JOIN "@ + other + " ON "@ + conjunction(on)
}

/// A clause made of conditions: nothing when there is none, else the
/// keyword and the conditions, each in brackets, held together by `AND`.
pub open spec fn conditions_clause(keyword: Seq<char>, conds: Seq<Seq<char>>) -> Seq<char> {
    if conds.len() == 0 {
        Seq::empty()
    } else {
        keyword + conjunction(conds)
    }
}

/// A clause made of a list: nothing when the list is empty, else the keyword
/// and the list.
pub open spec fn list_clause(keyword: Seq<char>, list: Seq<char>) -> Seq<char> {
    if list.len() == 0 {
        Seq::empty()
    } else {
        keyword + list
    }
}

/// ` LIMIT n`, followed by ` OFFSET m` when an offset is set as well. Without
/// a limit nothing is written, whether or not an offset is set.
pub open spec fn limit_clause(limit: Option<u32>, offset: Option<u32>) -> Seq<char> {
    match limit {
        None => Seq::empty(),
        Some(n) => " LIMIT "@ + nat_text(n as nat) + match offset {
            None => Seq::empty(),
            Some(m) => " OFFSET "@ + nat_text(m as nat),
        },
    }
}

/// The statement that `q` renders to: the clauses in their fixed order, and
/// no text for a clause that was given nothing.
pub open spec fn statement(q: SelectView) -> Seq<char> {
    "SELECT "@ + q.columns + " FROM "@ + q.table + conditions_clause(" WHERE "@, q.cond)
        + list_clause(" GROUP BY "@, q.group_by) + conditions_clause(" HAVING "@, q.having)
        + list_clause(" ORDER BY "@, q.order_by) + limit_clause(q.limit, q.offset)
}

/// The conditions of `cond`, each in brackets, held together by `AND`.
pub(crate) fn format_cond(cond: Vec<String>) -> (sql: String)
    ensures
        sql@ == conjunction(texts(cond@)),
{
    join_parenthesized(&cond, " AND ")
}

fn push_listed(list: &mut String, item: &str)
    ensures
        final(list)@ == listed(old(list)@, item@),
{
    if !list.as_str().is_empty() {
        list.append(",");
    }
    list.append(item);
    assert(Seq::<char>::empty() + item@ =~= item@);
}

fn push_conditions_clause(out: &mut String, keyword: &str, conds: Vec<String>)
    ensures
        final(out)@ == old(out)@ + conditions_clause(keyword@, texts(conds@)),
{
    if conds.len() > 0 {
        out.append(keyword);
        out.append(format_cond(conds).as_str());
        assert(out@ =~= old(out)@ + (keyword@ + conjunction(texts(conds@))));
    } else {
        assert(out@ =~= old(out)@ + Seq::<char>::empty());
    }
}

fn push_list_clause(out: &mut String, keyword: &str, list: &str)
    ensures
        final(out)@ == old(out)@ + list_clause(keyword@, list@),
{
    if !list.is_empty() {
        out.append(keyword);
        out.append(list);
        assert(out@ =~= old(out)@ + (keyword@ + list@));
    } else {
        assert(out@ =~= old(out)@ + Seq::<char>::empty());
    }
}

fn push_limit_clause(out: &mut String, limit: Option<u32>, offset: Option<u32>)
    ensures
        final(out)@ == old(out)@ + limit_clause(limit, offset),
{
    if let Some(n) = limit {
        out.append(" LIMIT ");
        push_decimal(out, n as u64);
        if let Some(m) = offset {
            out.append(" OFFSET ");
            push_decimal(out, m as u64);
            assert(out@ =~= old(out)@ + (" LIMIT "@ + nat_text(n as nat) + (" OFFSET "@
                + nat_text(m as nat))));
        } else {
            assert(out@ =~= old(out)@ + (" LIMIT "@ + nat_text(n as nat) + Seq::<char>::empty()));
        }
    } else {
        assert(out@ =~= old(out)@ + Seq::<char>::empty());
    }
}

fn copy_of(items: &Vec<String>) -> (copy: Vec<String>)
    ensures
        texts(copy@) == texts(items@),
{
    let mut copy: Vec<String> = Vec::new();
    let mut i: usize = 0;
    while i < items.len()
        invariant
            i <= items.len(),
            copy@.len() == i,
            forall|k: int| 0 <= k < i ==> (#[trigger] copy@[k])@ == items@[k]@,
        decreases items.len() - i,
    {
        copy.push(items[i].clone());
        i += 1;
    }
    assert(texts(copy@) =~= texts(items@));
    copy
}

/// Builder of a `SELECT` statement.
///
/// The accumulator starts empty, takes its base table once, then joins,
/// and gathers columns, conditions, grouping, ordering and a limit in any
/// order. `build` consumes it.
pub struct Select {
    columns: String,
    table: String,
    cond: Vec<String>,
    group_by: String,
    having: Vec<String>,
    order_by: String,
    limit: Option<u32>,
    offset: Option<u32>,
}

impl View for Select {
    type V = SelectView;

    closed spec fn view(&self) -> SelectView {
        SelectView {
            columns: self.columns@,
            table: self.table@,
            cond: texts(self.cond@),
            group_by: self.group_by@,
            having: texts(self.having@),
            order_by: self.order_by@,
            limit: self.limit,
            offset: self.offset,
        }
    }
}

impl Clone for Select {
    fn clone(&self) -> (copy: Self)
        ensures
            copy@ == self@,
    {
        Select {
            columns: self.columns.clone(),
            table: self.table.clone(),
            cond: copy_of(&self.cond),
            group_by: self.group_by.clone(),
            having: copy_of(&self.having),
            order_by: self.order_by.clone(),
            limit: self.limit,
            offset: self.offset,
        }
    }
}

impl Select {
    /// Whether a base table has been set.
    pub open spec fn has_table(&self) -> bool {
        self@.table.len() > 0
    }

    /// An empty select.
    pub fn new() -> (select: Self)
        ensures
            select@ == (SelectView {
                columns: Seq::empty(),
                table: Seq::empty(),
                cond: Seq::empty(),
                group_by: Seq::empty(),
                having: Seq::empty(),
                order_by: Seq::empty(),
                limit: None,
                offset: None,
            }),
    {
        let select = Self {
            columns: String::new(),
            table: String::new(),
            cond: Vec::new(),
            group_by: String::new(),
            having: Vec::new(),
            order_by: String::new(),
            limit: None,
            offset: None,
        };
        assert(select@.cond =~= Seq::empty());
        assert(select@.having =~= Seq::empty());
        select
    }

    /// Adds a column to be selected.
    pub fn with_column(self, col: String) -> (next: Self)
        ensures
            next@ == (SelectView { columns: listed(self@.columns, col@), ..self@ }),
    {
        let mut next = self;
        next.push_column(col);
        next
    }

    /// Adds columns to be selected, in the order given.
    pub fn with_columns(self, cols: Vec<String>) -> (next: Self)
        ensures
            next@ == (SelectView { columns: listed_all(self@.columns, texts(cols@)), ..self@ }),
    {
        let mut next = self;
        next.push_columns(cols);
        next
    }

    /// Sets the table from which the selection is made. This can be done
    /// once; further tables are joined.
    pub fn with_table<T: SqlTable>(self, table: T) -> (next: Self)
        requires
            !self.has_table(),
        ensures
            next@ == (SelectView { table: T::TABLE_NAME@, ..self@ }),
    {
        let mut next = self;
        next.set_table(table);
        next
    }

    /// Joins a table to the selection with an inner join.
    pub fn with_join<T: SqlTable>(self, table: T, on: Vec<String>) -> (next: Self)
        requires
            self.has_table(),
        ensures
            next@ == (SelectView {
                table: joined_table(self@.table, "INNER"@, T::TABLE_NAME@, texts(on@)),
                ..self@
            }),
            next.has_table(),
    {
        let mut next = self;
        next.inner_join(table, on);
        next
    }

    /// Joins a table to the selection with an inner join.
    pub fn with_inner_join<T: SqlTable>(self, table: T, on: Vec<String>) -> (next: Self)
        requires
            self.has_table(),
        ensures
            next@ == (SelectView {
                table: joined_table(self@.table, "INNER"@, T::TABLE_NAME@, texts(on@)),
                ..self@
            }),
            next.has_table(),
    {
        let mut next = self;
        next.inner_join(table, on);
        next
    }

    /// Joins a table to the selection with a left join.
    pub fn with_left_join<T: SqlTable>(self, table: T, on: Vec<String>) -> (next: Self)
        requires
            self.has_table(),
        ensures
            next@ == (SelectView {
                table: joined_table(self@.table, "LEFT"@, T::TABLE_NAME@, texts(on@)),
                ..self@
            }),
            next.has_table(),
    {
        let mut next = self;
        next.left_join(table, on);
        next
    }

    /// Adds a condition to `WHERE`.
    pub fn with_where_cond(self, cond: String) -> (next: Self)
        ensures
            next@ == (SelectView { cond: self@.cond.push(cond@), ..self@ }),
    {
        let mut next = self;
        next.push_where_cond(cond);
        next
    }

    /// Adds a term to `ORDER BY`.
    pub fn with_order(self, order: String) -> (next: Self)
        ensures
            next@ == (SelectView { order_by: listed(self@.order_by, order@), ..self@ }),
    {
        let mut next = self;
        next.push_order(order);
        next
    }

    /// Adds a column to `GROUP BY`.
    pub fn with_group(self, group: String) -> (next: Self)
        ensures
            next@ == (SelectView { group_by: listed(self@.group_by, group@), ..self@ }),
    {
        let mut next = self;
        next.push_group(group);
        next
    }

    /// Adds a condition to `HAVING`.
    pub fn with_having(self, having: String) -> (next: Self)
        ensures
            next@ == (SelectView { having: self@.having.push(having@), ..self@ }),
    {
        let mut next = self;
        next.push_having(having);
        next
    }

    /// Limits the number of rows returned.
    pub fn with_limit(self, limit: u32) -> (next: Self)
        ensures
            next@ == (SelectView { limit: Some(limit), ..self@ }),
    {
        let mut next = self;
        next.set_limit(limit);
        next
    }

    /// Sets the number of rows to pass over. It is written only together
    /// with a limit.
    pub fn with_limit_offset(self, offset: u32) -> (next: Self)
        ensures
            next@ == (SelectView { offset: Some(offset), ..self@ }),
    {
        let mut next = self;
        next.set_limit_offset(offset);
        next
    }

    /// Adds a column to be selected.
    pub fn push_column(&mut self, col: String)
        ensures
            final(self)@ == (SelectView {
                columns: listed(old(self)@.columns, col@),
                ..old(self)@
            }),
    {
        push_listed(&mut self.columns, col.as_str());
    }

    /// Adds columns to be selected, in the order given.
    pub fn push_columns(&mut self, cols: Vec<String>)
        ensures
            final(self)@ == (SelectView {
                columns: listed_all(old(self)@.columns, texts(cols@)),
                ..old(self)@
            }),
    {
        let ghost items = texts(cols@);
        let mut i: usize = 0;
        while i < cols.len()
            invariant
                i <= cols.len(),
                items == texts(cols@),
                self@ == (SelectView {
                    columns: listed_all(old(self)@.columns, items.take(i as int)),
                    ..old(self)@
                }),
            decreases cols.len() - i,
        {
            push_listed(&mut self.columns, cols[i].as_str());
            proof {
                assert(items.take(i + 1).drop_last() =~= items.take(i as int));
            }
            i += 1;
        }
        assert(items.take(cols.len() as int) =~= items);
    }

    /// Sets the table from which the selection is made. This can be done
    /// once; further tables are joined.
    pub fn set_table<T: SqlTable>(&mut self, _table: T)
        requires
            !old(self).has_table(),
        ensures
            final(self)@ == (SelectView { table: T::TABLE_NAME@, ..old(self)@ }),
    {
        self.table = String::from_str(T::TABLE_NAME);
    }

    /// Joins a table to the selection with an inner join.
    pub fn join<T: SqlTable>(&mut self, table: T, on: Vec<String>)
        requires
            old(self).has_table(),
        ensures
            final(self)@ == (SelectView {
                table: joined_table(old(self)@.table, "INNER"@, T::TABLE_NAME@, texts(on@)),
                ..old(self)@
            }),
            final(self).has_table(),
    {
        self.inner_join(table, on);
    }

    /// Joins a table to the selection with an inner join.
    pub fn inner_join<T: SqlTable>(&mut self, _table: T, on: Vec<String>)
        requires
            old(self).has_table(),
        ensures
            final(self)@ == (SelectView {
                table: joined_table(old(self)@.table, "INNER"@, T::TABLE_NAME@, texts(on@)),
                ..old(self)@
            }),
            final(self).has_table(),
    {
        let on_cond = format_cond(on);
        self.table.append(" ");
        self.table.append("INNER");
        self.table.append(" JOIN ");
        self.table.append(T::TABLE_NAME);
        self.table.append(" ON ");
        self.table.append(on_cond.as_str());
    }

    /// Joins a table to the selection with a left join.
    pub fn left_join<T: SqlTable>(&mut self, _table: T, on: Vec<String>)
        requires
            old(self).has_table(),
        ensures
            final(self)@ == (SelectView {
                table: joined_table(old(self)@.table, "LEFT"@, T::TABLE_NAME@, texts(on@)),
                ..old(self)@
            }),
            final(self).has_table(),
    {
        let on_cond = format_cond(on);
        self.table.append(" ");
        self.table.append("LEFT");
        self.table.append(" JOIN ");
        self.table.append(T::TABLE_NAME);
        self.table.append(" ON ");
        self.table.append(on_cond.as_str());
    }

    /// Adds a condition to `WHERE`.
    pub fn push_where_cond(&mut self, cond: String)
        ensures
            final(self)@ == (SelectView { cond: old(self)@.cond.push(cond@), ..old(self)@ }),
    {
        self.cond.push(cond);
        assert(texts(self.cond@) =~= texts(old(self).cond@).push(cond@));
    }

    /// Adds a term to `ORDER BY`.
    pub fn push_order(&mut self, order: String)
        ensures
            final(self)@ == (SelectView {
                order_by: listed(old(self)@.order_by, order@),
                ..old(self)@
            }),
    {
        push_listed(&mut self.order_by, order.as_str());
    }

    /// Adds a column to `GROUP BY`.
    pub fn push_group(&mut self, group: String)
        ensures
            final(self)@ == (SelectView {
                group_by: listed(old(self)@.group_by, group@),
                ..old(self)@
            }),
    {
        push_listed(&mut self.group_by, group.as_str());
    }

    /// Adds a condition to `HAVING`.
    pub fn push_having(&mut self, having: String)
        ensures
            final(self)@ == (SelectView {
                having: old(self)@.having.push(having@),
                ..old(self)@
            }),
    {
        self.having.push(having);
        assert(texts(self.having@) =~= texts(old(self).having@).push(having@));
    }

    /// Limits the number of rows returned.
    pub fn set_limit(&mut self, limit: u32)
        ensures
            final(self)@ == (SelectView { limit: Some(limit), ..old(self)@ }),
    {
        self.limit = Some(limit);
    }

    /// Sets the number of rows to pass over. It is written only together
    /// with a limit.
    pub fn set_limit_offset(&mut self, offset: u32)
        ensures
            final(self)@ == (SelectView { offset: Some(offset), ..old(self)@ }),
    {
        self.offset = Some(offset);
    }

    /// Renders the statement, consuming the accumulator.
    pub fn build(self) -> (sql: String)
        ensures
            sql@ == statement(self@),
    {
        let mut sql = String::from_str("SELECT ");
        sql.append(self.columns.as_str());
        sql.append(" FROM ");
        sql.append(self.table.as_str());
        push_conditions_clause(&mut sql, " WHERE ", self.cond);
        push_list_clause(&mut sql, " GROUP BY ", self.group_by.as_str());
        push_conditions_clause(&mut sql, " HAVING ", self.having);
        push_list_clause(&mut sql, " ORDER BY ", self.order_by.as_str());
        push_limit_clause(&mut sql, self.limit, self.offset);
        sql
    }
}

/// Rendering is a function of what was gathered: two accumulators that
/// hold the same render to the same text, however they were filled.
pub proof fn lemma_equal_state_renders_equal(a: Select, b: Select)
    requires
        a@ == b@,
    ensures
        statement(a@) == statement(b@),
{
}

/// A join only adds to the table text: what stood there stays in front, so
/// an accumulator that has its base table keeps it.
pub proof fn lemma_join_extends_table(
    table: Seq<char>,
    kind: Seq<char>,
    other: Seq<char>,
    on: Seq<Seq<char>>,
)
    ensures
        table.is_prefix_of(joined_table(table, kind, other, on)),
        joined_table(table, kind, other, on).len() >= table.len(),
{
    let rest = " "@ + kind + " JOIN "@ + other + " ON "@ + conjunction(on);
    assert(joined_table(table, kind, other, on) =~= table + rest);
}

/// An offset is written only behind a limit. Without a limit the statement
/// is the one that the same accumulator without its offset renders to, and
/// the limit clause is empty; with both, the limit comes first.
pub proof fn lemma_offset_needs_limit(q: SelectView)
    ensures
        q.limit is None ==> limit_clause(q.limit, q.offset) == Seq::<char>::empty(),
        q.limit is None ==> statement(q) == statement(SelectView { offset: None, ..q }),
        q.limit is Some && q.offset is None ==> limit_clause(q.limit, q.offset) == " LIMIT "@
            + nat_text(q.limit->0 as nat),
        q.limit is Some && q.offset is Some ==> limit_clause(q.limit, q.offset) == " LIMIT "@
            + nat_text(q.limit->0 as nat) + " OFFSET "@ + nat_text(q.offset->0 as nat),
{
    if q.limit is Some {
        let n = nat_text(q.limit->0 as nat);
        if q.offset is Some {
            let m = nat_text(q.offset->0 as nat);
            assert(" LIMIT "@ + n + (" OFFSET "@ + m) =~= " LIMIT "@ + n + " OFFSET "@ + m);
        } else {
            assert(" LIMIT "@ + n + Seq::<char>::empty() =~= " LIMIT "@ + n);
        }
    }
}

/// A clause that was given nothing writes nothing: with columns and a table
/// alone the statement is `SELECT {columns} FROM {table}`, and each clause
/// that is given something adds its own text behind it, in the fixed order.
pub proof fn lemma_unsupplied_clauses_are_absent(q: SelectView)
    ensures
        conditions_clause(" WHERE "@, q.cond) == if q.cond.len() == 0 {
            Seq::<char>::empty()
        } else {
            " WHERE "@ + conjunction(q.cond)
        },
        q.cond.len() == 0 && q.group_by.len() == 0 && q.having.len() == 0 && q.order_by.len() == 0
            && q.limit is None ==> statement(q) == "SELECT "@ + q.columns + " FROM "@ + q.table,
        q.group_by.len() == 0 && q.having.len() == 0 && q.order_by.len() == 0 && q.limit is None
            ==> statement(q) == "SELECT "@ + q.columns + " FROM "@ + q.table + conditions_clause(
            " WHERE "@,
            q.cond,
        ),
{
    let head = "SELECT "@ + q.columns + " FROM "@ + q.table;
    let nothing = Seq::<char>::empty();
    assert(head + nothing =~= head);
    assert(head + conditions_clause(" WHERE "@, q.cond) + nothing =~= head + conditions_clause(
        " WHERE "@,
        q.cond,
    ));
}

/// A base table joined to another on one condition, with one condition in
/// `WHERE` and nothing else, renders as
/// `SELECT {columns} FROM {base} INNER JOIN {other} ON ({on}) WHERE ({cond})`.
pub proof fn lemma_join_then_where(
    columns: Seq<char>,
    base: Seq<char>,
    other: Seq<char>,
    on: Seq<char>,
    cond: Seq<char>,
)
    ensures
        statement(
            SelectView {
                columns,
                table: joined_table(base, "INNER"@, other, seq![on]),
                cond: seq![cond],
                group_by: Seq::empty(),
                having: Seq::empty(),
                order_by: Seq::empty(),
                limit: None,
                offset: None,
            },
        ) == "SELECT "@ + columns + " FROM "@ + base + " INNER JOIN "@ + other + " ON "@
            + parenthesized(on) + " WHERE "@ + parenthesized(cond),
{
    let q = SelectView {
        columns,
        table: joined_table(base, "INNER"@, other, seq![on]),
        cond: seq![cond],
        group_by: Seq::empty(),
        having: Seq::empty(),
        order_by: Seq::empty(),
        limit: None,
        offset: None,
    };
    lemma_unsupplied_clauses_are_absent(q);
    reveal_strlit(" ");
    reveal_strlit("INNER");
    reveal_strlit(" JOIN ");
    reveal_strlit(" INNER JOIN ");
    assert(" "@ + "INNER"@ + " JOIN "@ =~= " INNER JOIN "@);
    assert(conjunction(seq![on]) == parenthesized(on));
    assert(conjunction(seq![cond]) == parenthesized(cond));
    assert(statement(q) =~= "SELECT "@ + columns + " FROM "@ + base + " INNER JOIN "@ + other
        + " ON "@ + parenthesized(on) + " WHERE "@ + parenthesized(cond));
}

} // verus!
