use std::marker::PhantomData;
use tuna::column::Column;
use tuna::common::{sstr, Render, ToSql};
use tuna::builder::Selectable;
use tuna::condition::{Both, Connect, Either, Equals, Not};

#[derive(Default)]
struct Users;

impl Selectable for Users {
    const NAME: sstr = "UserTable";
}

const ID: Column<Users, i64> = Column {
    name: "id",
    position: 0,
    _table_marker: PhantomData,
    _type_marker: PhantomData,
};

const LOGINS: Column<Users, Option<i64>> = Column {
    name: "login_count",
    position: 3,
    _table_marker: PhantomData,
    _type_marker: PhantomData,
};

const NAME: Column<Users, String> = Column {
    name: "name",
    position: 1,
    _table_marker: PhantomData,
    _type_marker: PhantomData,
};

fn text<T: ToSql>(t: &T) -> String {
    let mut out = String::new();
    t.sql().render(&mut out);
    out
}

#[test]
fn equals_alone() {
    assert_eq!(text(&ID.equals(1)), "UserTable.id = '1'");
}

#[test]
fn each_comparison_has_its_operator() {
    assert_eq!(text(&ID.equals(2)), "UserTable.id = '2'");
    assert_eq!(text(&ID.not_equals(2)), "UserTable.id <> '2'");
    assert_eq!(text(&ID.less_than(2)), "UserTable.id < '2'");
    assert_eq!(text(&ID.greater_than(2)), "UserTable.id > '2'");
    assert_eq!(text(&ID.leq(2)), "UserTable.id <= '2'");
    assert_eq!(text(&ID.geq(2)), "UserTable.id >= '2'");
}

#[test]
fn null_checks_take_no_value() {
    assert_eq!(text(&LOGINS.null()), "UserTable.login_count IS NULL");
    assert_eq!(text(&LOGINS.not_null()), "UserTable.login_count IS NOT NULL");
}

#[test]
fn condition_keeps_column_and_value() {
    let e = ID.equals(41);
    assert_eq!(e.projection.name, "id");
    assert_eq!(e.projection.position, 0);
    assert_eq!(e.value, 41);
}

#[test]
fn a_condition_can_be_written_out_by_hand() {
    let e = Equals { source: Users, projection: NAME, value: "x".to_owned() };
    assert_eq!(text(&e), "UserTable.name = 'x'");
}

#[test]
fn and_or_not_put_their_word_between_or_before() {
    assert_eq!(
        text(&ID.geq(1).and(ID.leq(9))),
        "UserTable.id >= '1' AND UserTable.id <= '9'"
    );
    assert_eq!(
        text(&ID.less_than(1).or(ID.greater_than(9))),
        "UserTable.id < '1' OR UserTable.id > '9'"
    );
    assert_eq!(text(&ID.equals(3).not()), "NOT UserTable.id = '3'");
}

#[test]
fn connectives_keep_their_operands() {
    let both: Both<_, _> = ID.equals(1).and(ID.equals(2));
    assert_eq!(both.0.value, 1);
    assert_eq!(both.1.value, 2);
    let either: Either<_, _> = ID.equals(3).or(ID.equals(4));
    assert_eq!(either.0.value, 3);
    assert_eq!(either.1.value, 4);
    let not: Not<_> = ID.equals(5).not();
    assert_eq!(not.0.value, 5);
}

#[test]
fn nesting_adds_no_parentheses() {
    let right = text(&ID.equals(1).and(ID.equals(2).or(ID.equals(3))));
    let left = text(&ID.equals(1).and(ID.equals(2)).or(ID.equals(3)));
    let flat = "UserTable.id = '1' AND UserTable.id = '2' OR UserTable.id = '3'";
    assert_eq!(right, flat);
    assert_eq!(left, flat);
    assert_ne!(right, "UserTable.id = '1' AND (UserTable.id = '2' OR UserTable.id = '3')");
}

#[test]
fn not_of_a_conjunction_is_not_grouped() {
    assert_eq!(
        text(&ID.equals(1).and(ID.equals(2)).not()),
        "NOT UserTable.id = '1' AND UserTable.id = '2'"
    );
}

#[test]
fn a_null_value_is_quoted_like_any_other() {
    assert_eq!(text(&LOGINS.equals(None)), "UserTable.login_count = 'NULL'");
    assert_eq!(text(&LOGINS.equals(Some(12))), "UserTable.login_count = '12'");
    assert_eq!(text(&LOGINS.less_than(None)), "UserTable.login_count < 'NULL'");
}

#[test]
fn a_string_value_is_not_escaped() {
    assert_eq!(text(&NAME.equals("o'brien".to_owned())), "UserTable.name = 'o'brien'");
    assert_eq!(text(&NAME.equals(String::new())), "UserTable.name = ''");
}

#[test]
fn rendering_twice_gives_the_same_text() {
    let c = ID.geq(5).and(LOGINS.not_null());
    assert_eq!(text(&c), text(&c));
    let p = (ID, NAME);
    assert_eq!(text(&p), text(&p));
}
