//! What holds of every query, stated over the texts of its parts and proved.
use vstd::prelude::*;
use crate::builder::Selectable;
use crate::column::Column;
use crate::common::{Render, ToSql};
use crate::common::join::join_text;
use crate::common::tuples::list_separator;
use crate::condition::{Both, Either, Equals, Geq, Greater, Leq, Less, NotEq};

verus! {

/// A column compared for equality with a value reads: the table's name, a
/// dot, the column's name, ` = ` and the value's SQL in single quotes.
/// `r` is what `c.equals(v)` returns.
pub proof fn law_equals_text<Table: Selectable, Type: ToSql>(
    c: Column<Table, Type>,
    v: Type,
    r: Equals<Table, Column<Table, Type>, Type>,
)
    requires
        r.projection == c,
        r.value == v,
    ensures
        r.sql_text() == Table::NAME@ + "."@ + c.name@ + " = '"@ + v.sql_text() + "'"@,
{
}

/// A column compared with a value for inequality it reads as `equals` does, with
/// ` <> ` for the operator. `r` is what `c.not_equals(v)` returns.
pub proof fn law_not_equals_text<Table: Selectable, Type: ToSql>(
    c: Column<Table, Type>,
    v: Type,
    r: NotEq<Table, Column<Table, Type>, Type>,
)
    requires
        r.projection == c,
        r.value == v,
    ensures
        r.sql_text() == Table::NAME@ + "."@ + c.name@ + " <> '"@ + v.sql_text() + "'"@,
{
}

/// A column compared with a value as less than it reads as `equals` does, with
/// ` < ` for the operator. `r` is what `c.less_than(v)` returns.
pub proof fn law_less_than_text<Table: Selectable, Type: ToSql>(
    c: Column<Table, Type>,
    v: Type,
    r: Less<Table, Column<Table, Type>, Type>,
)
    requires
        r.projection == c,
        r.value == v,
    ensures
        r.sql_text() == Table::NAME@ + "."@ + c.name@ + " < '"@ + v.sql_text() + "'"@,
{
}

/// A column compared with a value as greater than it reads as `equals` does, with
/// ` > ` for the operator. `r` is what `c.greater_than(v)` returns.
pub proof fn law_greater_than_text<Table: Selectable, Type: ToSql>(
    c: Column<Table, Type>,
    v: Type,
    r: Greater<Table, Column<Table, Type>, Type>,
)
    requires
        r.projection == c,
        r.value == v,
    ensures
        r.sql_text() == Table::NAME@ + "."@ + c.name@ + " > '"@ + v.sql_text() + "'"@,
{
}

/// A column compared with a value as at most it reads as `equals` does, with
/// ` <= ` for the operator. `r` is what `c.leq(v)` returns.
pub proof fn law_leq_text<Table: Selectable, Type: ToSql>(
    c: Column<Table, Type>,
    v: Type,
    r: Leq<Table, Column<Table, Type>, Type>,
)
    requires
        r.projection == c,
        r.value == v,
    ensures
        r.sql_text() == Table::NAME@ + "."@ + c.name@ + " <= '"@ + v.sql_text() + "'"@,
{
}

/// A column compared with a value as at least it reads as `equals` does, with
/// ` >= ` for the operator. `r` is what `c.geq(v)` returns.
pub proof fn law_geq_text<Table: Selectable, Type: ToSql>(
    c: Column<Table, Type>,
    v: Type,
    r: Geq<Table, Column<Table, Type>, Type>,
)
    requires
        r.projection == c,
        r.value == v,
    ensures
        r.sql_text() == Table::NAME@ + "."@ + c.name@ + " >= '"@ + v.sql_text() + "'"@,
{
}

/// Joining reads the same from either end: the first part, the separator,
/// and the remaining parts joined.
pub proof fn law_join_from_the_left(sep: Seq<char>, parts: Seq<Seq<char>>)
    requires
        parts.len() >= 2,
    ensures
        join_text(sep, parts) == parts[0] + sep + join_text(sep, parts.skip(1)),
    decreases parts.len(),
{
    let front = parts.drop_last();
    let rest = parts.skip(1);
    if parts.len() == 2 {
        reveal_with_fuel(join_text, 2);
        assert(join_text(sep, front) == parts[0]);
        assert(join_text(sep, rest) == parts[1]);
    } else {
        law_join_from_the_left(sep, front);
        assert(rest.drop_last() =~= front.skip(1));
        assert(rest.last() == parts.last());
        assert(join_text(sep, parts) =~= parts[0] + sep + join_text(sep, rest));
    }
}

/// Two columns selected together read as their names with `, ` between
/// them, in the order written.
pub proof fn law_pair_of_columns<Table, X, Y>(first: Column<Table, X>, second: Column<Table, Y>)
    ensures
        (first, second).sql_text() == first.name@ + ", "@ + second.name@,
{
    reveal_strlit(", ");
    reveal_with_fuel(join_text, 2);
    let parts = seq![first.name@, second.name@];
    assert(parts.drop_last() =~= seq![first.name@]);
    assert(", "@ =~= list_separator());
}

/// Three columns selected together read as their names with `, ` between
/// each two neighbours, in the order written.
pub proof fn law_triple_of_columns<Table, X, Y, Z>(
    first: Column<Table, X>,
    second: Column<Table, Y>,
    third: Column<Table, Z>,
)
    ensures
        (first, second, third).sql_text() == first.name@ + ", "@ + second.name@ + ", "@
            + third.name@,
{
    reveal_strlit(", ");
    reveal_with_fuel(join_text, 3);
    let parts = seq![first.name@, second.name@, third.name@];
    assert(parts.drop_last() =~= seq![first.name@, second.name@]);
    assert(parts.drop_last().drop_last() =~= seq![first.name@]);
    assert(", "@ =~= list_separator());
}

/// `a.and(b.or(c))` and `a.and(b).or(c)` read the same: the three texts in
/// their order with ` AND ` and ` OR ` between them. No parentheses are
/// written, so the text is not that of the grouped form.
pub proof fn law_no_grouping<A: ToSql, B: ToSql, C: ToSql>(a: A, b: B, c: C)
    ensures
        Both(a, Either(b, c)).sql_text() == a.sql_text() + " AND "@ + b.sql_text() + " OR "@
            + c.sql_text(),
        Either(Both(a, b), c).sql_text() == Both(a, Either(b, c)).sql_text(),
        Both(a, Either(b, c)).sql_text() != a.sql_text() + " AND ("@ + b.sql_text() + " OR "@
            + c.sql_text() + ")"@,
{
    let ta = a.sql_text();
    let tb = b.sql_text();
    let tc = c.sql_text();
    let flat = ta + " AND "@ + tb + " OR "@ + tc;
    assert(Both(a, Either(b, c)).sql_text() =~= flat);
    assert(Either(Both(a, b), c).sql_text() =~= flat);
    reveal_strlit(" AND ");
    reveal_strlit(" AND (");
    reveal_strlit(" OR ");
    reveal_strlit(")");
    let grouped = ta + " AND ("@ + tb + " OR "@ + tc + ")"@;
    assert(grouped.len() == flat.len() + 2);
}

/// Rendering is a function of the value: two calls of `sql` on one value
/// give forms with the same text.
pub proof fn law_sql_is_a_function<T: ToSql>(t: T, first: T::Sql, second: T::Sql)
    requires
        call_ensures(T::sql, (&t,), first),
        call_ensures(T::sql, (&t,), second),
    ensures
        first.text() == second.text(),
        first.text() == t.sql_text(),
{
}

} // verus!
