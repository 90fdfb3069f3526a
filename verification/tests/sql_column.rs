use humble_orm::text::with_alias;
use humble_orm::{SqlColumn, SqlValue};
use time::{Date, Month};

const ID: SqlColumn = SqlColumn { name: "\"id\"", table_name: "\"User\"", is_primary: true };
const NAME: SqlColumn = SqlColumn { name: "\"name\"", table_name: "\"User\"", is_primary: false };
const AGE: SqlColumn = SqlColumn { name: "\"age\"", table_name: "\"User\"", is_primary: false };

#[test]
fn new_keeps_what_it_is_given() {
    let column = SqlColumn::new("\"id\"", "\"User\"", true);
    assert_eq!(column.name, "\"id\"");
    assert_eq!(column.table_name, "\"User\"");
    assert!(column.is_primary);
    assert!(column.is_primary());
    assert!(!SqlColumn::new("\"name\"", "\"User\"", false).is_primary());
}

#[test]
fn names_come_without_quotes() {
    assert_eq!(ID.name(), "id");
    assert_eq!(ID.table_name(), "User");
    assert_eq!(SqlColumn::new("'name'", "'T'", false).name(), "name");
    assert_eq!(SqlColumn::new("'name'", "'T'", false).table_name(), "T");
}

#[test]
fn names_without_a_pair_of_quotes_stay() {
    assert_eq!(SqlColumn::new("id", "User", false).name(), "id");
    assert_eq!(SqlColumn::new("\"id'", "'User\"", false).name(), "\"id'");
    assert_eq!(SqlColumn::new("\"id'", "'User\"", false).table_name(), "'User\"");
    assert_eq!(SqlColumn::new("\"", "'", false).name(), "\"");
    assert_eq!(SqlColumn::new("\"", "'", false).table_name(), "'");
    assert_eq!(SqlColumn::new("", "", false).name(), "");
    assert_eq!(SqlColumn::new("\"id", "User\"", false).name(), "\"id");
    assert_eq!(SqlColumn::new("\"id", "User\"", false).table_name(), "User\"");
}

#[test]
fn empty_and_unicode_names() {
    assert_eq!(SqlColumn::new("\"\"", "''", false).name(), "");
    assert_eq!(SqlColumn::new("\"\"", "''", false).table_name(), "");
    assert_eq!(SqlColumn::new("\"имя\"", "\"表\"", false).name(), "имя");
    assert_eq!(SqlColumn::new("\"имя\"", "\"表\"", false).table_name(), "表");
    assert_eq!(SqlColumn::new("é\"", "\"é", false).name(), "é\"");
}

#[test]
fn reference_is_written_verbatim() {
    assert_eq!(ID.to_sql(), "\"User\".\"id\"");
    assert_eq!(SqlColumn::new("id", "User", false).to_sql(), "User.id");
}

#[test]
fn alias() {
    assert_eq!(NAME.alias("n"), "\"User\".\"name\" AS \"n\"");
    assert_eq!(NAME.alias("my \"n\""), "\"User\".\"name\" AS \"my \\\"n\\\"\"");
}

#[test]
fn with_alias_takes_the_alias_as_written() {
    assert_eq!(with_alias("COUNT(x)", "\"n\""), "COUNT(x) AS \"n\"");
    assert_eq!(with_alias("a", "b"), "a AS b");
}

#[test]
fn aggregates() {
    assert_eq!(AGE.count(), "COUNT(\"User\".\"age\")");
    assert_eq!(AGE.sum(), "SUM(\"User\".\"age\")");
    assert_eq!(AGE.avg(), "AVG(\"User\".\"age\")");
    assert_eq!(AGE.min(), "MIN(\"User\".\"age\")");
    assert_eq!(AGE.max(), "MAX(\"User\".\"age\")");
}

#[test]
fn aggregates_with_alias() {
    assert_eq!(AGE.count_as("n"), "COUNT(\"User\".\"age\") AS \"n\"");
    assert_eq!(AGE.sum_as("total"), "SUM(\"User\".\"age\") AS \"total\"");
    assert_eq!(AGE.avg_as("mean"), "AVG(\"User\".\"age\") AS \"mean\"");
    assert_eq!(AGE.min_as("least"), "MIN(\"User\".\"age\") AS \"least\"");
    assert_eq!(AGE.max_as("most"), "MAX(\"User\".\"age\") AS \"most\"");
}

#[test]
fn aggregate_aliases_are_escaped() {
    assert_eq!(AGE.count_as("a\"b"), "COUNT(\"User\".\"age\") AS \"a\\\"b\"");
    assert_eq!(AGE.sum_as("a\"b"), "SUM(\"User\".\"age\") AS \"a\\\"b\"");
    assert_eq!(AGE.avg_as("a\"b"), "AVG(\"User\".\"age\") AS \"a\\\"b\"");
    assert_eq!(AGE.min_as("a\"b"), "MIN(\"User\".\"age\") AS \"a\\\"b\"");
    assert_eq!(AGE.max_as("a\"b"), "MAX(\"User\".\"age\") AS \"a\\\"b\"");
}

#[test]
fn ordering() {
    assert_eq!(NAME.asc(), "\"User\".\"name\" ASC");
    assert_eq!(NAME.desc(), "\"User\".\"name\" DESC");
}

#[test]
fn null_tests() {
    assert_eq!(NAME.is_null(), "\"User\".\"name\" IS NULL");
    assert_eq!(NAME.is_not_null(), "\"User\".\"name\" IS NOT NULL");
}

#[test]
fn comparisons() {
    assert_eq!(NAME.eq("John"), "\"User\".\"name\" = \"John\"");
    assert_eq!(NAME.ne(String::from("John")), "\"User\".\"name\" != \"John\"");
    assert_eq!(AGE.gt(30), "\"User\".\"age\" > 30");
    assert_eq!(AGE.ge(30u32), "\"User\".\"age\" >= 30");
    assert_eq!(AGE.lt(-1i64), "\"User\".\"age\" < -1");
    assert_eq!(AGE.le(18u64), "\"User\".\"age\" <= 18");
    assert_eq!(NAME.like("J%"), "\"User\".\"name\" LIKE \"J%\"");
    assert_eq!(NAME.not_like("J%"), "\"User\".\"name\" NOT LIKE \"J%\"");
}

#[test]
fn comparison_with_other_values() {
    assert_eq!(ID.eq(AGE), "\"User\".\"id\" = \"User\".\"age\"");
    assert_eq!(NAME.eq(true), "\"User\".\"name\" = true");
    let date = Date::from_calendar_date(2001, Month::September, 9).unwrap();
    assert_eq!(AGE.ge(date), "\"User\".\"age\" >= \"2001-09-09\"");
}

#[test]
fn comparison_escapes_the_value() {
    assert_eq!(NAME.eq("\" OR 1=1 --"), "\"User\".\"name\" = \"\\\" OR 1=1 --\"");
}

#[test]
fn in_list_keeps_the_order() {
    assert_eq!(ID.in_list(vec![3, 1, 2]), "\"User\".\"id\" IN (3,1,2)");
    assert_eq!(ID.in_list(vec![7u64]), "\"User\".\"id\" IN (7)");
    assert_eq!(NAME.in_list(vec!["a", "b"]), "\"User\".\"name\" IN (\"a\",\"b\")");
    assert_eq!(ID.in_list(vec![5, 5, 5]), "\"User\".\"id\" IN (5,5,5)");
}

#[test]
fn in_list_of_nothing_is_false() {
    assert_eq!(ID.in_list(Vec::<i32>::new()), "false");
    assert_eq!(NAME.in_list(Vec::<String>::new()), "false");
}

#[test]
fn not_in_list_keeps_the_order() {
    assert_eq!(ID.not_in_list(vec![3, 1, 2]), "\"User\".\"id\" NOT IN (3,1,2)");
    assert_eq!(NAME.not_in_list(vec![String::from("x")]), "\"User\".\"name\" NOT IN (\"x\")");
}

#[test]
fn not_in_list_of_nothing_is_true() {
    assert_eq!(ID.not_in_list(Vec::<i32>::new()), "true");
}

#[test]
fn between() {
    assert_eq!(AGE.between(18, 65), "\"User\".\"age\" BETWEEN (18) AND (65)");
    assert_eq!(NAME.between("a", String::from("m")), "\"User\".\"name\" BETWEEN (\"a\") AND (\"m\")");
    assert_eq!(AGE.between(ID, 10u32), "\"User\".\"age\" BETWEEN (\"User\".\"id\") AND (10)");
}

#[test]
fn column_is_copied() {
    let first = NAME;
    let second = first;
    assert_eq!(first.asc(), second.asc());
    assert_eq!(first.clone().name(), "name");
}

struct Raw(&'static str);

impl SqlValue for Raw {
    fn to_sql(&self) -> String {
        self.0.to_string()
    }
}

#[test]
fn any_type_may_write_itself() {
    assert_eq!(AGE.eq(Raw("NOW()")), "\"User\".\"age\" = NOW()");
    assert_eq!(AGE.in_list(vec![Raw("a"), Raw("b")]), "\"User\".\"age\" IN (a,b)");
    assert_eq!(AGE.between(Raw("x"), 3), "\"User\".\"age\" BETWEEN (x) AND (3)");
}

#[test]
fn column_converts_into_its_reference() {
    assert_eq!(String::from(NAME), "\"User\".\"name\"");
    let text: String = ID.into();
    assert_eq!(text, "\"User\".\"id\"");
    assert_eq!(String::from(AGE), AGE.to_sql());
}

#[test]
fn in_list_of_dates() {
    let first = Date::from_calendar_date(2024, Month::January, 31).unwrap();
    let second = Date::from_calendar_date(2024, Month::November, 1).unwrap();
    assert_eq!(
        AGE.in_list(vec![first, second]),
        "\"User\".\"age\" IN (\"2024-01-31\",\"2024-11-01\")"
    );
}
