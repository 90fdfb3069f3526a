use humble_orm::{join_or, Select, SqlColumn, SqlTable, SqlValue};

#[derive(Default)]
struct User;

impl User {
    const ID: SqlColumn = SqlColumn { name: "\"id\"", table_name: "\"User\"", is_primary: true };
    const NAME: SqlColumn = SqlColumn { name: "\"name\"", table_name: "\"User\"", is_primary: false };
    const DATA_ID: SqlColumn =
        SqlColumn { name: "\"data_id\"", table_name: "\"User\"", is_primary: false };
}

impl SqlTable for User {
    const TABLE_NAME: &'static str = "\"User\"";
    const COLUMNS: &'static [SqlColumn] = &[User::ID, User::NAME, User::DATA_ID];
}

#[derive(Default)]
struct UserData;

impl UserData {
    const ID: SqlColumn = SqlColumn { name: "\"id\"", table_name: "\"UserData\"", is_primary: true };
}

impl SqlTable for UserData {
    const TABLE_NAME: &'static str = "\"UserData\"";
    const COLUMNS: &'static [SqlColumn] = &[UserData::ID];
}

#[derive(Default)]
struct Plain;

impl SqlTable for Plain {
    const TABLE_NAME: &'static str = "t";
    const COLUMNS: &'static [SqlColumn] = &[];
}

fn s(text: &str) -> String {
    text.to_string()
}

#[test]
fn new_select_renders_bare_keywords() {
    assert_eq!(Select::new().build(), "SELECT  FROM ");
}

#[test]
fn columns_and_table() {
    let sql = Select::new()
        .with_column(User::ID.to_sql())
        .with_column(User::NAME.to_sql())
        .with_table(User::as_table())
        .build();
    assert_eq!(sql, "SELECT \"User\".\"id\",\"User\".\"name\" FROM \"User\"");
}

#[test]
fn with_columns_adds_all_in_order() {
    let sql = Select::new()
        .with_column(s("a"))
        .with_columns(vec![s("b"), s("c")])
        .with_columns(Vec::new())
        .with_table(Plain)
        .build();
    assert_eq!(sql, "SELECT a,b,c FROM t");
}

#[test]
fn columns_are_not_deduplicated() {
    let sql = Select::new().with_columns(vec![s("a"), s("a")]).with_table(Plain).build();
    assert_eq!(sql, "SELECT a,a FROM t");
}

#[test]
fn empty_column_leaves_no_comma_before_the_next() {
    let sql = Select::new().with_column(s("")).with_column(s("a")).with_table(Plain).build();
    assert_eq!(sql, "SELECT a FROM t");
    let sql = Select::new().with_column(s("a")).with_column(s("")).with_table(Plain).build();
    assert_eq!(sql, "SELECT a, FROM t");
}

#[test]
fn imperative_surface_matches_the_fluent_one() {
    let fluent = Select::new()
        .with_columns(vec![User::NAME.to_sql(), User::ID.to_sql()])
        .with_table(User::as_table())
        .with_where_cond(User::ID.gt(1))
        .with_group(User::NAME.to_sql())
        .with_having(User::ID.count() + " > 1")
        .with_order(User::NAME.asc())
        .with_limit(3)
        .with_limit_offset(4)
        .build();
    let mut select = Select::new();
    select.push_columns(vec![User::NAME.to_sql(), User::ID.to_sql()]);
    select.set_table(User::as_table());
    select.push_where_cond(User::ID.gt(1));
    select.push_group(User::NAME.to_sql());
    select.push_having(User::ID.count() + " > 1");
    select.push_order(User::NAME.asc());
    select.set_limit(3);
    select.set_limit_offset(4);
    assert_eq!(select.build(), fluent);
    assert_eq!(
        fluent,
        "SELECT \"User\".\"name\",\"User\".\"id\" FROM \"User\" WHERE (\"User\".\"id\" > 1) \
         GROUP BY \"User\".\"name\" HAVING (COUNT(\"User\".\"id\") > 1) \
         ORDER BY \"User\".\"name\" ASC LIMIT 3 OFFSET 4"
    );
}

#[test]
fn where_conditions_are_each_in_brackets() {
    let sql = Select::new()
        .with_column(s("*"))
        .with_table(Plain)
        .with_where_cond(s("a = 1"))
        .with_where_cond(join_or(vec![s("b = 2"), s("c = 3")]))
        .build();
    assert_eq!(sql, "SELECT * FROM t WHERE (a = 1) AND ((b = 2) OR (c = 3))");
}

#[test]
fn having_conditions_are_each_in_brackets() {
    let sql = Select::new()
        .with_column(s("x"))
        .with_table(Plain)
        .with_group(s("x"))
        .with_group(s("y"))
        .with_having(s("COUNT(x) > 1"))
        .with_having(s("SUM(y) < 5"))
        .build();
    assert_eq!(sql, "SELECT x FROM t GROUP BY x,y HAVING (COUNT(x) > 1) AND (SUM(y) < 5)");
}

#[test]
fn order_terms_accumulate() {
    let sql = Select::new()
        .with_column(s("x"))
        .with_table(Plain)
        .with_order(s("x ASC"))
        .with_order(s("y DESC"))
        .build();
    assert_eq!(sql, "SELECT x FROM t ORDER BY x ASC,y DESC");
}

#[test]
fn limit_then_offset() {
    let sql =
        Select::new().with_column(s("x")).with_table(Plain).with_limit(10).with_limit_offset(5).build();
    assert_eq!(sql, "SELECT x FROM t LIMIT 10 OFFSET 5");
    let sql =
        Select::new().with_column(s("x")).with_table(Plain).with_limit_offset(5).with_limit(10).build();
    assert_eq!(sql, "SELECT x FROM t LIMIT 10 OFFSET 5");
}

#[test]
fn limit_alone() {
    let sql = Select::new().with_column(s("x")).with_table(Plain).with_limit(10).build();
    assert_eq!(sql, "SELECT x FROM t LIMIT 10");
    let sql = Select::new().with_column(s("x")).with_table(Plain).with_limit(0).build();
    assert_eq!(sql, "SELECT x FROM t LIMIT 0");
    let sql = Select::new().with_column(s("x")).with_table(Plain).with_limit(u32::MAX).build();
    assert_eq!(sql, "SELECT x FROM t LIMIT 4294967295");
}

#[test]
fn offset_alone_is_not_written() {
    let sql = Select::new().with_column(s("x")).with_table(Plain).with_limit_offset(5).build();
    assert_eq!(sql, "SELECT x FROM t");
    assert!(!sql.contains("LIMIT"));
    assert!(!sql.contains("OFFSET"));
}

#[test]
fn later_limit_replaces_the_earlier() {
    let mut select = Select::new();
    select.push_column(s("x"));
    select.set_table(Plain);
    select.set_limit(1);
    select.set_limit(2);
    select.set_limit_offset(3);
    select.set_limit_offset(4);
    assert_eq!(select.build(), "SELECT x FROM t LIMIT 2 OFFSET 4");
}

#[test]
fn inner_join_with_where() {
    let sql = Select::new()
        .with_column(User::NAME.to_sql())
        .with_table(User::as_table())
        .with_inner_join(UserData::as_table(), vec![User::DATA_ID.eq(UserData::ID)])
        .with_where_cond(User::NAME.eq("Bob"))
        .build();
    assert_eq!(
        sql,
        "SELECT \"User\".\"name\" FROM \"User\" INNER JOIN \"UserData\" ON \
         (\"User\".\"data_id\" = \"UserData\".\"id\") WHERE (\"User\".\"name\" = \"Bob\")"
    );
    assert!(!sql.contains("GROUP BY"));
    assert!(!sql.contains("HAVING"));
    assert!(!sql.contains("ORDER BY"));
    assert!(!sql.contains("LIMIT"));
    assert!(!sql.contains("OFFSET"));
}

#[test]
fn join_is_an_inner_join() {
    let on = vec![s("a = b")];
    let joined = Select::new().with_column(s("x")).with_table(Plain).with_join(User, on.clone()).build();
    let inner =
        Select::new().with_column(s("x")).with_table(Plain).with_inner_join(User, on.clone()).build();
    let mut select = Select::new();
    select.push_column(s("x"));
    select.set_table(Plain);
    select.join(User, on.clone());
    assert_eq!(joined, "SELECT x FROM t INNER JOIN \"User\" ON (a = b)");
    assert_eq!(inner, joined);
    assert_eq!(select.build(), joined);
    let mut select = Select::new();
    select.push_column(s("x"));
    select.set_table(Plain);
    select.inner_join(User, on);
    assert_eq!(select.build(), joined);
}

#[test]
fn left_join() {
    let sql = Select::new()
        .with_column(s("x"))
        .with_table(User)
        .with_left_join(UserData, vec![s("a = b"), s("c = d")])
        .build();
    assert_eq!(sql, "SELECT x FROM \"User\" LEFT JOIN \"UserData\" ON (a = b) AND (c = d)");
    let mut select = Select::new();
    select.push_column(s("x"));
    select.set_table(User);
    select.left_join(UserData, vec![s("a = b"), s("c = d")]);
    assert_eq!(select.build(), sql);
}

#[test]
fn joins_follow_one_another() {
    let sql = Select::new()
        .with_column(s("x"))
        .with_table(Plain)
        .with_join(User, vec![s("p")])
        .with_left_join(UserData, vec![s("q")])
        .build();
    assert_eq!(sql, "SELECT x FROM t INNER JOIN \"User\" ON (p) LEFT JOIN \"UserData\" ON (q)");
}

#[test]
fn join_without_conditions_has_an_empty_on() {
    let sql = Select::new().with_column(s("x")).with_table(Plain).with_join(User, Vec::new()).build();
    assert_eq!(sql, "SELECT x FROM t INNER JOIN \"User\" ON ");
}

#[test]
fn clauses_come_in_their_fixed_order() {
    let sql = Select::new()
        .with_limit(1)
        .with_order(s("o"))
        .with_having(s("h"))
        .with_group(s("g"))
        .with_where_cond(s("w"))
        .with_table(Plain)
        .with_column(s("c"))
        .build();
    assert_eq!(sql, "SELECT c FROM t WHERE (w) GROUP BY g HAVING (h) ORDER BY o LIMIT 1");
}

#[test]
fn rendering_equal_accumulators_gives_equal_text() {
    let select = Select::new()
        .with_columns(vec![s("a"), s("b")])
        .with_table(User)
        .with_left_join(UserData, vec![s("j")])
        .with_where_cond(s("w1"))
        .with_where_cond(s("w2"))
        .with_group(s("g"))
        .with_having(s("h"))
        .with_order(s("o"))
        .with_limit(7)
        .with_limit_offset(8);
    let copy = select.clone();
    let first = select.build();
    let second = copy.build();
    assert_eq!(first, second);
    assert_eq!(first.as_bytes(), second.as_bytes());
    assert_eq!(
        first,
        "SELECT a,b FROM \"User\" LEFT JOIN \"UserData\" ON (j) WHERE (w1) AND (w2) GROUP BY g \
         HAVING (h) ORDER BY o LIMIT 7 OFFSET 8"
    );
}
