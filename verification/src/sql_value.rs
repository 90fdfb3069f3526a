//! Values that can be written into a statement as SQL literals.

use vstd::prelude::*;
use vstd::string::*;
use crate::decimal::{
    digit_char,
    int_text,
    lemma_four_digits,
    lemma_two_digits,
    nat_text,
    push_decimal,
    push_signed,
    push_zero_padded,
    push_zero_padded_signed,
    zero_padded,
    zero_padded_int,
};
use crate::text::quoted;

verus! {

/// A value that knows how it is written in SQL.
///
/// `sql_text` is the literal; `to_sql` produces exactly that text. Any type
/// may implement the trait to take part in comparisons and `IN` lists.
pub trait SqlValue {
    /// The SQL literal of the value. Every implementation here says what it
    /// is; one that does not leaves it unspecified, and then nothing is
    /// known of the text that `to_sql` writes.
    open spec fn sql_text(&self) -> Seq<char> {
        arbitrary()
    }

    /// Writes the value as an SQL literal.
    fn to_sql(&self) -> (sql: String)
        ensures
            sql@ == self.sql_text(),
    ;
}

/// What `Debug` formatting of std writes for a string with the characters
/// `s`: the string between double quotes, with quotes, backslashes and
/// characters that do not print written as escapes.
pub uninterp spec fn debug_quoted(s: Seq<char>) -> Seq<char>;

/// `Debug` formatting of `str` in std, through `format!`. The result depends
/// on the characters of `s` alone.
#[verifier::external_body]
pub(crate) fn quote(s: &str) -> (out: String)
    ensures
        out@ == debug_quoted(s@),
{
    format!("{s:?}")
}

impl SqlValue for String {
    open spec fn sql_text(&self) -> Seq<char> {
        debug_quoted(self@)
    }

    fn to_sql(&self) -> (sql: String) {
        quote(self.as_str())
    }
}

impl SqlValue for &str {
    open spec fn sql_text(&self) -> Seq<char> {
        debug_quoted(self@)
    }

    fn to_sql(&self) -> (sql: String) {
        quote(self)
    }
}

impl SqlValue for i32 {
    open spec fn sql_text(&self) -> Seq<char> {
        int_text(*self as int)
    }

    fn to_sql(&self) -> (sql: String) {
        signed_literal(*self as i64)
    }
}

impl SqlValue for u32 {
    open spec fn sql_text(&self) -> Seq<char> {
        nat_text(*self as nat)
    }

    fn to_sql(&self) -> (sql: String) {
        unsigned_literal(*self as u64)
    }
}

impl SqlValue for i64 {
    open spec fn sql_text(&self) -> Seq<char> {
        int_text(*self as int)
    }

    fn to_sql(&self) -> (sql: String) {
        signed_literal(*self)
    }
}

impl SqlValue for u64 {
    open spec fn sql_text(&self) -> Seq<char> {
        nat_text(*self as nat)
    }

    fn to_sql(&self) -> (sql: String) {
        unsigned_literal(*self)
    }
}

impl SqlValue for bool {
    open spec fn sql_text(&self) -> Seq<char> {
        if *self {
            "true"@
        } else {
            "false"@
        }
    }

    fn to_sql(&self) -> (sql: String) {
        if *self {
            String::from_str("true")
        } else {
            String::from_str("false")
        }
    }
}

/// The decimal text of `n`.
pub fn unsigned_literal(n: u64) -> (sql: String)
    ensures
        sql@ == nat_text(n as nat),
{
    let mut sql = String::new();
    push_decimal(&mut sql, n);
    assert(Seq::<char>::empty() + nat_text(n as nat) =~= nat_text(n as nat));
    sql
}

/// The decimal text of `n`, with a minus sign in front when it is negative.
pub fn signed_literal(n: i64) -> (sql: String)
    ensures
        sql@ == int_text(n as int),
{
    let mut sql = String::new();
    push_signed(&mut sql, n);
    assert(Seq::<char>::empty() + int_text(n as int) =~= int_text(n as int));
    sql
}

/// `YYYY-MM-DD`: the year on four digits at least, month and day on two.
pub open spec fn date_text(year: int, month: nat, day: nat) -> Seq<char> {
    zero_padded_int(year, 4) + "-"@ + zero_padded(month, 2) + "-"@ + zero_padded(day, 2)
}

/// `HH:MM:SS`, each field on two digits.
pub open spec fn time_text(hour: nat, minute: nat, second: nat) -> Seq<char> {
    zero_padded(hour, 2) + ":"@ + zero_padded(minute, 2) + ":"@ + zero_padded(second, 2)
}

/// `YYYY-MM-DDTHH:MM:SS`.
pub open spec fn timestamp_text(
    year: int,
    month: nat,
    day: nat,
    hour: nat,
    minute: nat,
    second: nat,
) -> Seq<char> {
    date_text(year, month, day) + "T"@ + time_text(hour, minute, second)
}

fn push_date(out: &mut String, year: i32, month: u8, day: u8)
    ensures
        final(out)@ == old(out)@ + date_text(year as int, month as nat, day as nat),
{
    push_zero_padded_signed(out, year as i64, 4);
    out.append("-");
    push_zero_padded(out, month as u64, 2);
    out.append("-");
    push_zero_padded(out, day as u64, 2);
    assert(out@ =~= old(out)@ + date_text(year as int, month as nat, day as nat));
}

fn push_time(out: &mut String, hour: u8, minute: u8, second: u8)
    ensures
        final(out)@ == old(out)@ + time_text(hour as nat, minute as nat, second as nat),
{
    push_zero_padded(out, hour as u64, 2);
    out.append(":");
    push_zero_padded(out, minute as u64, 2);
    out.append(":");
    push_zero_padded(out, second as u64, 2);
    assert(out@ =~= old(out)@ + time_text(hour as nat, minute as nat, second as nat));
}

/// The quoted literal of a calendar date.
pub fn date_literal(year: i32, month: u8, day: u8) -> (sql: String)
    ensures
        sql@ == quoted(date_text(year as int, month as nat, day as nat)),
{
    let mut sql = String::from_str("\"");
    push_date(&mut sql, year, month, day);
    sql.append("\"");
    sql
}

/// The quoted literal of a time of day.
pub fn time_literal(hour: u8, minute: u8, second: u8) -> (sql: String)
    ensures
        sql@ == quoted(time_text(hour as nat, minute as nat, second as nat)),
{
    let mut sql = String::from_str("\"");
    push_time(&mut sql, hour, minute, second);
    sql.append("\"");
    sql
}

/// The quoted literal of a date with a time of day.
pub fn timestamp_literal(year: i32, month: u8, day: u8, hour: u8, minute: u8, second: u8) -> (sql:
    String)
    ensures
        sql@ == quoted(
            timestamp_text(
                year as int,
                month as nat,
                day as nat,
                hour as nat,
                minute as nat,
                second as nat,
            ),
        ),
{
    let mut sql = String::from_str("\"");
    push_date(&mut sql, year, month, day);
    sql.append("T");
    push_time(&mut sql, hour, minute, second);
    sql.append("\"");
    assert(sql@ =~= quoted(
        timestamp_text(
            year as int,
            month as nat,
            day as nat,
            hour as nat,
            minute as nat,
            second as nat,
        ),
    ));
    sql
}

/// With every field below a hundred, a time of day is written on exactly
/// eight characters: `HH:MM:SS`, each field on its two digits.
pub proof fn lemma_time_text_layout(hour: nat, minute: nat, second: nat)
    requires
        hour < 100,
        minute < 100,
        second < 100,
    ensures
        time_text(hour, minute, second) == seq![
            digit_char(hour / 10),
            digit_char(hour % 10),
            ':',
            digit_char(minute / 10),
            digit_char(minute % 10),
            ':',
            digit_char(second / 10),
            digit_char(second % 10),
        ],
{
    lemma_two_digits(hour);
    lemma_two_digits(minute);
    lemma_two_digits(second);
    reveal_strlit(":");
    assert(time_text(hour, minute, second) =~= seq![
        digit_char(hour / 10),
        digit_char(hour % 10),
        ':',
        digit_char(minute / 10),
        digit_char(minute % 10),
        ':',
        digit_char(second / 10),
        digit_char(second % 10),
    ]);
}

/// With a year from 0 to 9999 and month and day below a hundred, a date is
/// written on exactly ten characters: `YYYY-MM-DD`.
pub proof fn lemma_date_text_layout(year: int, month: nat, day: nat)
    requires
        0 <= year <= 9999,
        month < 100,
        day < 100,
    ensures
        date_text(year, month, day) == seq![
            digit_char((year / 1000) as nat),
            digit_char(((year / 100) % 10) as nat),
            digit_char(((year / 10) % 10) as nat),
            digit_char((year % 10) as nat),
            '-',
            digit_char(month / 10),
            digit_char(month % 10),
            '-',
            digit_char(day / 10),
            digit_char(day % 10),
        ],
{
    lemma_four_digits(year as nat);
    lemma_two_digits(month);
    lemma_two_digits(day);
    reveal_strlit("-");
    assert(date_text(year, month, day) =~= seq![
        digit_char((year / 1000) as nat),
        digit_char(((year / 100) % 10) as nat),
        digit_char(((year / 10) % 10) as nat),
        digit_char((year % 10) as nat),
        '-',
        digit_char(month / 10),
        digit_char(month % 10),
        '-',
        digit_char(day / 10),
        digit_char(day % 10),
    ]);
}

/// A date of the `time` crate, carried as it is.
#[verifier::external_type_specification]
#[verifier::external_body]
pub struct ExDate(time::Date);

/// A time of day of the `time` crate, carried as it is.
#[verifier::external_type_specification]
#[verifier::external_body]
pub struct ExTime(time::Time);

/// A date with a time of day of the `time` crate, carried as it is.
#[verifier::external_type_specification]
#[verifier::external_body]
pub struct ExPrimitiveDateTime(time::PrimitiveDateTime);

/// Year, month (January is 1) and day of the month of a date, as
/// `time::Date::to_calendar_date` gives them.
pub uninterp spec fn calendar_date(date: time::Date) -> (i32, u8, u8);

/// Hour, minute and second of a time of day, as `time::Time::as_hms` gives
/// them.
pub uninterp spec fn clock_time(time: time::Time) -> (u8, u8, u8);

/// Year, month (January is 1) and day of the month of a date with a time,
/// as `time::PrimitiveDateTime::to_calendar_date` gives them.
pub uninterp spec fn timestamp_date(stamp: time::PrimitiveDateTime) -> (i32, u8, u8);

/// Hour, minute and second of a date with a time, as
/// `time::PrimitiveDateTime::as_hms` gives them.
pub uninterp spec fn timestamp_clock(stamp: time::PrimitiveDateTime) -> (u8, u8, u8);

/// The fields of a date stay inside the calendar: twelve months, and at
/// most thirty-one days in each.
pub open spec fn in_calendar(fields: (i32, u8, u8)) -> bool {
    &&& 1 <= fields.1 <= 12
    &&& 1 <= fields.2 <= 31
}

/// The fields of a time of day stay on the clock face.
pub open spec fn on_clock(fields: (u8, u8, u8)) -> bool {
    &&& fields.0 < 24
    &&& fields.1 < 60
    &&& fields.2 < 60
}

/// `time::Date::to_calendar_date`, with the month turned into its number.
/// The result depends on the date alone; the month is one of twelve
/// variants numbered from 1, and the crate documents the day in `1..=31`.
#[verifier::external_body]
fn read_date(date: &time::Date) -> (fields: (i32, u8, u8))
    ensures
        fields == calendar_date(*date),
        in_calendar(fields),
{
    let (year, month, day) = date.to_calendar_date();
    (year, month as u8, day)
}

/// `time::Time::as_hms`. The crate documents the hour in `0..24` and minute
/// and second in `0..60`.
#[verifier::external_body]
fn read_time(time: &time::Time) -> (fields: (u8, u8, u8))
    ensures
        fields == clock_time(*time),
        on_clock(fields),
{
    time.as_hms()
}

/// `time::PrimitiveDateTime::to_calendar_date`, with the month turned into
/// its number; the ranges are those of a date.
#[verifier::external_body]
fn read_timestamp_date(stamp: &time::PrimitiveDateTime) -> (fields: (i32, u8, u8))
    ensures
        fields == timestamp_date(*stamp),
        in_calendar(fields),
{
    let (year, month, day) = stamp.to_calendar_date();
    (year, month as u8, day)
}

/// `time::PrimitiveDateTime::as_hms`; the ranges are those of a time of day.
#[verifier::external_body]
fn read_timestamp_clock(stamp: &time::PrimitiveDateTime) -> (fields: (u8, u8, u8))
    ensures
        fields == timestamp_clock(*stamp),
        on_clock(fields),
{
    stamp.as_hms()
}

impl SqlValue for time::Date {
    open spec fn sql_text(&self) -> Seq<char> {
        let (year, month, day) = calendar_date(*self);
        quoted(date_text(year as int, month as nat, day as nat))
    }

    fn to_sql(&self) -> (sql: String)
        ensures
            0 <= calendar_date(*self).0 <= 9999 ==> sql@.len() == 12,
    {
        let (year, month, day) = read_date(self);
        proof {
            if 0 <= year <= 9999 {
                lemma_date_text_layout(year as int, month as nat, day as nat);
            }
            reveal_strlit("\"");
        }
        date_literal(year, month, day)
    }
}

impl SqlValue for time::Time {
    open spec fn sql_text(&self) -> Seq<char> {
        let (hour, minute, second) = clock_time(*self);
        quoted(time_text(hour as nat, minute as nat, second as nat))
    }

    fn to_sql(&self) -> (sql: String)
        ensures
            sql@.len() == 10,
    {
        let (hour, minute, second) = read_time(self);
        proof {
            lemma_time_text_layout(hour as nat, minute as nat, second as nat);
            reveal_strlit("\"");
        }
        time_literal(hour, minute, second)
    }
}

impl SqlValue for time::PrimitiveDateTime {
    open spec fn sql_text(&self) -> Seq<char> {
        let (year, month, day) = timestamp_date(*self);
        let (hour, minute, second) = timestamp_clock(*self);
        quoted(
            timestamp_text(
                year as int,
                month as nat,
                day as nat,
                hour as nat,
                minute as nat,
                second as nat,
            ),
        )
    }

    fn to_sql(&self) -> (sql: String)
        ensures
            0 <= timestamp_date(*self).0 <= 9999 ==> sql@.len() == 21,
    {
        let (year, month, day) = read_timestamp_date(self);
        let (hour, minute, second) = read_timestamp_clock(self);
        proof {
            if 0 <= year <= 9999 {
                lemma_date_text_layout(year as int, month as nat, day as nat);
            }
            lemma_time_text_layout(hour as nat, minute as nat, second as nat);
            reveal_strlit("\"");
            reveal_strlit("T");
        }
        timestamp_literal(year, month, day, hour, minute, second)
    }
}

} // verus!
