use std::marker::PhantomData;
use tuna::builder::Selectable;
use tuna::column::Column;
use tuna::common::join::Join;
use tuna::common::{sstr, OptionT, Render, ToSql};

#[derive(Default)]
struct Wide;

impl Selectable for Wide {
    const NAME: sstr = "wide";
}

const fn col(name: sstr, position: usize) -> Column<Wide, i64> {
    Column { name, position, _table_marker: PhantomData, _type_marker: PhantomData }
}

fn written<R: Render>(r: &R) -> String {
    let mut out = String::new();
    r.render(&mut out);
    out
}

fn text<T: ToSql>(t: &T) -> String {
    written(&t.sql())
}

#[test]
fn integers_render_in_decimal() {
    assert_eq!(text(&0i64), "0");
    assert_eq!(text(&7i64), "7");
    assert_eq!(text(&9i64), "9");
    assert_eq!(text(&10i64), "10");
    assert_eq!(text(&1234567890i64), "1234567890");
    assert_eq!(text(&-1i64), "-1");
    assert_eq!(text(&-10i64), "-10");
    assert_eq!(text(&-305i64), "-305");
}

#[test]
fn the_widest_integers_render_in_full() {
    assert_eq!(text(&i64::MAX), "9223372036854775807");
    assert_eq!(text(&i64::MIN), "-9223372036854775808");
    assert_eq!(text(&i64::MAX), i64::MAX.to_string());
    assert_eq!(text(&i64::MIN), i64::MIN.to_string());
}

#[test]
fn integers_render_as_the_standard_library_prints_them() {
    let mut n: i64 = 1;
    while n < i64::MAX / 7 {
        assert_eq!(text(&n), n.to_string());
        assert_eq!(text(&-n), (-n).to_string());
        assert_eq!(text(&(n - 1)), (n - 1).to_string());
        n *= 7;
    }
}

#[test]
fn strings_render_as_they_are() {
    assert_eq!(text(&"tuna".to_owned()), "tuna");
    assert_eq!(text(&String::new()), "");
    assert_eq!(text(&"a 'b' \"c\"".to_owned()), "a 'b' \"c\"");
}

#[test]
fn an_optional_value_renders_its_value_or_null() {
    assert_eq!(text(&Some(15i64)), "15");
    assert_eq!(text(&None::<i64>), "NULL");
    assert_eq!(text(&Some("x".to_owned())), "x");
    assert_eq!(text(&None::<String>), "NULL");
    assert_eq!(text(&Some(Some(-2i64))), "-2");
    assert_eq!(text(&Some(None::<i64>)), "NULL");
}

#[test]
fn the_rendered_option_holds_the_rendered_value() {
    let some: OptionT<i64> = Some(4i64).sql();
    assert_eq!(some.0, Some(4));
    let none: OptionT<i64> = None::<i64>.sql();
    assert_eq!(none.0, None);
}

#[test]
fn render_appends_to_what_the_buffer_holds() {
    let mut out = "WHERE ".to_owned();
    42i64.render(&mut out);
    " AND ".render(&mut out);
    "x".to_owned().render(&mut out);
    assert_eq!(out, "WHERE 42 AND x");
}

#[test]
fn a_column_renders_as_its_name() {
    assert_eq!(text(&col("id", 0)), "id");
    assert_eq!(text(&col("login_count", 3)), "login_count");
}

#[test]
fn a_cloned_column_is_the_same_column() {
    let c = col("id", 4);
    let d = c.clone();
    assert_eq!(d.name, "id");
    assert_eq!(d.position, 4);
}

#[test]
fn join_puts_the_separator_between_parts_only() {
    let two = Join { sep: "-", tup: ("a", "b") };
    assert_eq!(written(&two), "a-b");
    let three = Join { sep: ", ", tup: (1i64, "b", "c".to_owned()) };
    assert_eq!(written(&three), "1, b, c");
    let four = Join { sep: "", tup: ("a", "b", "c", "d") };
    assert_eq!(written(&four), "abcd");
}

#[test]
fn join_keeps_empty_parts_and_their_separators() {
    let j = Join { sep: "|", tup: ("", "x", "") };
    assert_eq!(written(&j), "|x|");
}

#[test]
fn a_join_can_be_a_part_and_a_separator() {
    let inner = Join { sep: "+", tup: ("a", "b") };
    let outer = Join { sep: Join { sep: "", tup: (" ", " ") }, tup: (inner, "c") };
    assert_eq!(written(&outer), "a+b  c");
}

#[test]
fn tuples_of_columns_render_names_in_order() {
    assert_eq!(text(&(col("a", 0), col("b", 1))), "a, b");
    assert_eq!(text(&(col("b", 1), col("a", 0))), "b, a");
    assert_eq!(text(&(col("a", 0), col("b", 1), col("c", 2))), "a, b, c");
    assert_eq!(
        text(&(col("a", 0), col("b", 1), col("c", 2), col("d", 3), col("e", 4))),
        "a, b, c, d, e"
    );
}

#[test]
fn a_tuple_may_hold_tuples() {
    assert_eq!(text(&((col("a", 0), col("b", 1)), col("c", 2))), "a, b, c");
}

#[test]
fn a_tuple_of_twenty_six_columns_renders_every_name() {
    let all = (
        col("a", 0), col("b", 1), col("c", 2), col("d", 3), col("e", 4), col("f", 5),
        col("g", 6), col("h", 7), col("i", 8), col("j", 9), col("k", 10), col("l", 11),
        col("m", 12), col("n", 13), col("o", 14), col("p", 15), col("q", 16), col("r", 17),
        col("s", 18), col("t", 19), col("u", 20), col("v", 21), col("w", 22), col("x", 23),
        col("y", 24), col("z", 25),
    );
    assert_eq!(
        text(&all),
        "a, b, c, d, e, f, g, h, i, j, k, l, m, n, o, p, q, r, s, t, u, v, w, x, y, z"
    );
}

#[test]
fn a_wide_tuple_can_be_selected() {
    let seven = (
        col("a", 0), col("b", 1), col("c", 2), col("d", 3), col("e", 4), col("f", 5),
        col("g", 6),
    );
    let query = Wide.select(seven).filter(col("a", 0).equals(1)).finish();
    assert_eq!(query.sql, "SELECT a, b, c, d, e, f, g FROM wide WHERE wide.a = '1'");
}

#[test]
fn a_table_renders_as_its_name() {
    assert_eq!(text(&Wide), "wide");
}
