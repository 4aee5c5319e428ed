use std::marker::PhantomData;
use tuna::builder::{Column, Connect, Projection, Selectable, Selected, sstr};

#[derive(Default, Debug)]
struct Users;

impl Selectable for Users {
    const NAME: sstr = "UserTable";

    fn select<P: Projection<Users>>(self, p: P) -> Selected<Self, P> {
        Selected { source: self, projection: p }
    }
}

/// A table that keeps the `select` that the trait provides.
#[derive(Default, Debug)]
struct Orders;

impl Selectable for Orders {
    const NAME: sstr = "orders";
}

const ID: Column<Users, i64> = Column {
    name: "id",
    position: 0,
    _table_marker: PhantomData,
    _type_marker: PhantomData,
};

const LOGIN_COUNT: Column<Users, Option<u64>> = Column {
    name: "login_count",
    position: 3,
    _table_marker: PhantomData,
    _type_marker: PhantomData,
};

const LOGINS: Column<Users, Option<i64>> = Column {
    name: "login_count",
    position: 3,
    _table_marker: PhantomData,
    _type_marker: PhantomData,
};

const NAME: Column<Users, String> = Column {
    name: "name",
    position: 1,
    _table_marker: PhantomData,
    _type_marker: PhantomData,
};

const TOTAL: Column<Orders, i64> = Column {
    name: "total",
    position: 2,
    _table_marker: PhantomData,
    _type_marker: PhantomData,
};

#[test]
fn select_two_columns_filtered_by_two_conditions() {
    let query = Users
        .select((ID, LOGIN_COUNT))
        .filter(ID.geq(5).and(LOGIN_COUNT.not_null()))
        .finish();
    assert_eq!(
        query.sql,
        "SELECT id, login_count FROM UserTable WHERE UserTable.id >= '5' AND UserTable.login_count IS NOT NULL"
    );
}

#[test]
fn three_conditions_nested_to_the_right() {
    let query = Users
        .select((ID, LOGINS))
        .filter(
            ID.geq(1)
                .and(LOGINS.less_than(Some(5)).and(NAME.equals("tuna".to_owned()))),
        )
        .finish();
    assert_eq!(
        query.sql,
        "SELECT id, login_count FROM UserTable WHERE UserTable.id >= '1' AND UserTable.login_count < '5' AND UserTable.name = 'tuna'"
    );
}

#[test]
fn finish_puts_the_three_parts_after_their_keywords() {
    let query = Users.select(NAME).filter(ID.equals(7)).finish();
    assert_eq!(query.sql, "SELECT name FROM UserTable WHERE UserTable.id = '7'");
    let parts = format!("SELECT {} FROM {} WHERE {}", "name", "UserTable", "UserTable.id = '7'");
    assert_eq!(query.sql, parts);
}

#[test]
fn as_str_gives_the_sql_field() {
    let query = Users.select(ID).filter(ID.null()).finish();
    assert_eq!(query.as_str(), "SELECT id FROM UserTable WHERE UserTable.id IS NULL");
    assert_eq!(query.as_str(), query.sql.as_str());
}

#[test]
fn select_keeps_table_and_projection() {
    let selected = Users.select(ID);
    assert_eq!(selected.projection.name, "id");
    assert_eq!(selected.projection.position, 0);
    assert_eq!(format!("{:?}", selected.source), "Users");
}

#[test]
fn provided_select_builds_the_same_query() {
    let query = Orders.select(TOTAL).filter(TOTAL.greater_than(100)).finish();
    assert_eq!(query.sql, "SELECT total FROM orders WHERE orders.total > '100'");
}
