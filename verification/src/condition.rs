//! SQL conditions: what goes after `WHERE`.
//!
//! A condition is a tree. Its leaves compare a projection of a source with a
//! value or test it for null; `AND`, `OR` and `NOT` combine conditions over
//! the same source. The text of a tree is the text of its parts in a row:
//! nothing is put in parentheses, so `a.and(b.or(c))` and `a.and(b).or(c)`
//! read the same.
use vstd::prelude::*;
use crate::common::{Projection, Render, ToSql, sstr};
use crate::common::join::{
    Join, lemma_join_plain_2, lemma_join_plain_3, lemma_join_plain_4, lemma_join_plain_6,
};

verus! {

/// A condition to put in a SQL `WHERE` clause. The parameter is the source
/// of the data for the condition, which keeps a query from referring to
/// columns that its source table does not have.
pub trait Condition<Src>: ToSql {

}

/// The connectives, which every condition has: each takes conditions over
/// one source and gives a condition over that source. They stand in a trait
/// of their own, implemented for every condition, because a method cannot be
/// bounded by the trait that declares it.
pub trait Connect<Src>: Condition<Src> + Sized {
    /// Chains two conditions over the same source with `AND`.
    fn and<Other: Condition<Src>>(self, other: Other) -> (r: Both<Self, Other>)
        ensures
            r.0 == self,
            r.1 == other,
            r.sql_text() == self.sql_text() + " AND "@ + other.sql_text(),
    {
        Both(self, other)
    }

    /// Chains two conditions over the same source with `OR`.
    fn or<Other: Condition<Src>>(self, other: Other) -> (r: Either<Self, Other>)
        ensures
            r.0 == self,
            r.1 == other,
            r.sql_text() == self.sql_text() + " OR "@ + other.sql_text(),
    {
        Either(self, other)
    }

    /// Negates a condition with `NOT`.
    fn not(self) -> (r: Not<Self>)
        ensures
            r.0 == self,
            r.sql_text() == "NOT "@ + self.sql_text(),
    {
        Not(self)
    }
}

impl<Src, C: Condition<Src>> Connect<Src> for C {

}

/// Two conditions held together by `AND`.
pub struct Both<A, B>(pub A, pub B);

/// Two conditions held together by `OR`.
pub struct Either<A, B>(pub A, pub B);

/// A condition with `NOT` before it.
pub struct Not<A>(pub A);

fn empty_sep() -> (s: sstr)
    ensures
        s.text() == Seq::<char>::empty(),
{
    proof {
        reveal_strlit("");
    }
    let s = "";
    assert(s@ =~= Seq::<char>::empty());
    s
}

/// Two parts that render one after the other.
fn in_a_row_2<A: Render, B: Render>(a: A, b: B) -> (r: Join<sstr, (A, B)>)
    ensures
        r.text() == a.text() + b.text(),
{
    let r = Join { sep: empty_sep(), tup: (a, b) };
    proof {
        lemma_join_plain_2(a.text(), b.text());
        assert(r.sep.text() == Seq::<char>::empty());
        assert(seq![r.tup.0.text(), r.tup.1.text()] == seq![a.text(), b.text()]);
    }
    r
}

/// Three parts that render one after the other.
fn in_a_row_3<A: Render, B: Render, C: Render>(a: A, b: B, c: C) -> (r: Join<sstr, (A, B, C)>)
    ensures
        r.text() == a.text() + b.text() + c.text(),
{
    let r = Join { sep: empty_sep(), tup: (a, b, c) };
    proof {
        lemma_join_plain_3(a.text(), b.text(), c.text());
        assert(r.sep.text() == Seq::<char>::empty());
        assert(seq![r.tup.0.text(), r.tup.1.text(), r.tup.2.text()] == seq![
            a.text(),
            b.text(),
            c.text(),
        ]);
    }
    r
}

impl<A: ToSql, B: ToSql> ToSql for Both<A, B> {
    type Sql = Join<sstr, (A::Sql, sstr, B::Sql)>;

    open spec fn sql_text(&self) -> Seq<char> {
        self.0.sql_text() + " AND "@ + self.1.sql_text()
    }

    fn sql(&self) -> Self::Sql {
        let word: sstr = " AND ";
        assert(word.text() == " AND "@);
        in_a_row_3(self.0.sql(), word, self.1.sql())
    }
}

impl<A: ToSql, B: ToSql> ToSql for Either<A, B> {
    type Sql = Join<sstr, (A::Sql, sstr, B::Sql)>;

    open spec fn sql_text(&self) -> Seq<char> {
        self.0.sql_text() + " OR "@ + self.1.sql_text()
    }

    fn sql(&self) -> Self::Sql {
        let word: sstr = " OR ";
        assert(word.text() == " OR "@);
        in_a_row_3(self.0.sql(), word, self.1.sql())
    }
}

impl<A: ToSql> ToSql for Not<A> {
    type Sql = Join<sstr, (sstr, A::Sql)>;

    open spec fn sql_text(&self) -> Seq<char> {
        "NOT "@ + self.0.sql_text()
    }

    fn sql(&self) -> Self::Sql {
        let word: sstr = "NOT ";
        assert(word.text() == "NOT "@);
        in_a_row_2(word, self.0.sql())
    }
}

impl<Src: ToSql, A: Condition<Src>, B: Condition<Src>> Condition<Src> for Both<A, B> {

}

impl<Src: ToSql, A: Condition<Src>, B: Condition<Src>> Condition<Src> for Either<A, B> {

}

impl<Src: ToSql, A: Condition<Src>> Condition<Src> for Not<A> {

}

/// Four parts that render one after the other.
fn in_a_row_4<A: Render, B: Render, C: Render, D: Render>(a: A, b: B, c: C, d: D) -> (r: Join<
    sstr,
    (A, B, C, D),
>)
    ensures
        r.text() == a.text() + b.text() + c.text() + d.text(),
{
    let r = Join { sep: empty_sep(), tup: (a, b, c, d) };
    proof {
        lemma_join_plain_4(a.text(), b.text(), c.text(), d.text());
        assert(r.sep.text() == Seq::<char>::empty());
        assert(seq![r.tup.0.text(), r.tup.1.text(), r.tup.2.text(), r.tup.3.text()] == seq![
            a.text(),
            b.text(),
            c.text(),
            d.text(),
        ]);
    }
    r
}

/// Six parts that render one after the other.
fn in_a_row_6<A: Render, B: Render, C: Render, D: Render, E: Render, F: Render>(
    a: A,
    b: B,
    c: C,
    d: D,
    e: E,
    f: F,
) -> (r: Join<sstr, (A, B, C, D, E, F)>)
    ensures
        r.text() == a.text() + b.text() + c.text() + d.text() + e.text() + f.text(),
{
    let r = Join { sep: empty_sep(), tup: (a, b, c, d, e, f) };
    proof {
        lemma_join_plain_6(a.text(), b.text(), c.text(), d.text(), e.text(), f.text());
        assert(r.sep.text() == Seq::<char>::empty());
        assert(seq![
            r.tup.0.text(),
            r.tup.1.text(),
            r.tup.2.text(),
            r.tup.3.text(),
            r.tup.4.text(),
            r.tup.5.text(),
        ] == seq![a.text(), b.text(), c.text(), d.text(), e.text(), f.text()]);
    }
    r
}

/// A condition that holds where the column or other projection is equal to some value.
pub struct Equals<Src, Prj, Type> {
    pub source: Src,
    pub projection: Prj,
    pub value: Type,
}

/// A condition that holds where the column or other projection is not equal to some value.
pub struct NotEq<Src, Prj, Type> {
    pub source: Src,
    pub projection: Prj,
    pub value: Type,
}

/// A condition that holds where the column or other projection is less than some value.
pub struct Less<Src, Prj, Type> {
    pub source: Src,
    pub projection: Prj,
    pub value: Type,
}

/// A condition that holds where the column or other projection is greater than some value.
pub struct Greater<Src, Prj, Type> {
    pub source: Src,
    pub projection: Prj,
    pub value: Type,
}

/// A condition that holds where the column or other projection is less than or equal to some value.
pub struct Leq<Src, Prj, Type> {
    pub source: Src,
    pub projection: Prj,
    pub value: Type,
}

/// A condition that holds where the column or other projection is greater than or equal to some value.
pub struct Geq<Src, Prj, Type> {
    pub source: Src,
    pub projection: Prj,
    pub value: Type,
}

/// A condition that holds where the column or other projection is null.
pub struct IsNull<Src, Prj> {
    pub source: Src,
    pub projection: Prj,
}

/// A condition that holds where the column or other projection is not null.
pub struct IsNotNull<Src, Prj> {
    pub source: Src,
    pub projection: Prj,
}

impl<Src: ToSql, Prj: Projection<Src, Value = Type>, Type: ToSql> ToSql for Equals<Src, Prj, Type> {
    type Sql = Join<sstr, (Src::Sql, sstr, Prj::Sql, sstr, Type::Sql, sstr)>;

    /// The value stands in single quotes, whatever it is: a null value
    /// reads `'NULL'`, and a quote inside a string is not escaped.
    open spec fn sql_text(&self) -> Seq<char> {
        self.source.sql_text() + "."@ + self.projection.sql_text() + " = '"@
            + self.value.sql_text() + "'"@
    }

    fn sql(&self) -> Self::Sql {
        let dot: sstr = ".";
        let op: sstr = " = '";
        let quote: sstr = "'";
        assert(dot.text() == "."@ && op.text() == " = '"@ && quote.text() == "'"@);
        in_a_row_6(self.source.sql(), dot, self.projection.sql(), op, self.value.sql(), quote)
    }
}

impl<Src: ToSql, Prj: Projection<Src, Value = Type>, Type: ToSql> ToSql for NotEq<Src, Prj, Type> {
    type Sql = Join<sstr, (Src::Sql, sstr, Prj::Sql, sstr, Type::Sql, sstr)>;

    /// The value stands in single quotes, whatever it is: a null value
    /// reads `'NULL'`, and a quote inside a string is not escaped.
    open spec fn sql_text(&self) -> Seq<char> {
        self.source.sql_text() + "."@ + self.projection.sql_text() + " <> '"@
            + self.value.sql_text() + "'"@
    }

    fn sql(&self) -> Self::Sql {
        let dot: sstr = ".";
        let op: sstr = " <> '";
        let quote: sstr = "'";
        assert(dot.text() == "."@ && op.text() == " <> '"@ && quote.text() == "'"@);
        in_a_row_6(self.source.sql(), dot, self.projection.sql(), op, self.value.sql(), quote)
    }
}

impl<Src: ToSql, Prj: Projection<Src, Value = Type>, Type: ToSql> ToSql for Less<Src, Prj, Type> {
    type Sql = Join<sstr, (Src::Sql, sstr, Prj::Sql, sstr, Type::Sql, sstr)>;

    /// The value stands in single quotes, whatever it is: a null value
    /// reads `'NULL'`, and a quote inside a string is not escaped.
    open spec fn sql_text(&self) -> Seq<char> {
        self.source.sql_text() + "."@ + self.projection.sql_text() + " < '"@
            + self.value.sql_text() + "'"@
    }

    fn sql(&self) -> Self::Sql {
        let dot: sstr = ".";
        let op: sstr = " < '";
        let quote: sstr = "'";
        assert(dot.text() == "."@ && op.text() == " < '"@ && quote.text() == "'"@);
        in_a_row_6(self.source.sql(), dot, self.projection.sql(), op, self.value.sql(), quote)
    }
}

impl<Src: ToSql, Prj: Projection<Src, Value = Type>, Type: ToSql> ToSql for Greater<Src, Prj, Type> {
    type Sql = Join<sstr, (Src::Sql, sstr, Prj::Sql, sstr, Type::Sql, sstr)>;

    /// The value stands in single quotes, whatever it is: a null value
    /// reads `'NULL'`, and a quote inside a string is not escaped.
    open spec fn sql_text(&self) -> Seq<char> {
        self.source.sql_text() + "."@ + self.projection.sql_text() + " > '"@
            + self.value.sql_text() + "'"@
    }

    fn sql(&self) -> Self::Sql {
        let dot: sstr = ".";
        let op: sstr = " > '";
        let quote: sstr = "'";
        assert(dot.text() == "."@ && op.text() == " > '"@ && quote.text() == "'"@);
        in_a_row_6(self.source.sql(), dot, self.projection.sql(), op, self.value.sql(), quote)
    }
}

impl<Src: ToSql, Prj: Projection<Src, Value = Type>, Type: ToSql> ToSql for Leq<Src, Prj, Type> {
    type Sql = Join<sstr, (Src::Sql, sstr, Prj::Sql, sstr, Type::Sql, sstr)>;

    /// The value stands in single quotes, whatever it is: a null value
    /// reads `'NULL'`, and a quote inside a string is not escaped.
    open spec fn sql_text(&self) -> Seq<char> {
        self.source.sql_text() + "."@ + self.projection.sql_text() + " <= '"@
            + self.value.sql_text() + "'"@
    }

    fn sql(&self) -> Self::Sql {
        let dot: sstr = ".";
        let op: sstr = " <= '";
        let quote: sstr = "'";
        assert(dot.text() == "."@ && op.text() == " <= '"@ && quote.text() == "'"@);
        in_a_row_6(self.source.sql(), dot, self.projection.sql(), op, self.value.sql(), quote)
    }
}

impl<Src: ToSql, Prj: Projection<Src, Value = Type>, Type: ToSql> ToSql for Geq<Src, Prj, Type> {
    type Sql = Join<sstr, (Src::Sql, sstr, Prj::Sql, sstr, Type::Sql, sstr)>;

    /// The value stands in single quotes, whatever it is: a null value
    /// reads `'NULL'`, and a quote inside a string is not escaped.
    open spec fn sql_text(&self) -> Seq<char> {
        self.source.sql_text() + "."@ + self.projection.sql_text() + " >= '"@
            + self.value.sql_text() + "'"@
    }

    fn sql(&self) -> Self::Sql {
        let dot: sstr = ".";
        let op: sstr = " >= '";
        let quote: sstr = "'";
        assert(dot.text() == "."@ && op.text() == " >= '"@ && quote.text() == "'"@);
        in_a_row_6(self.source.sql(), dot, self.projection.sql(), op, self.value.sql(), quote)
    }
}

impl<Src: ToSql, Prj: Projection<Src>> ToSql for IsNull<Src, Prj> {
    type Sql = Join<sstr, (Src::Sql, sstr, Prj::Sql, sstr)>;

    open spec fn sql_text(&self) -> Seq<char> {
        self.source.sql_text() + "."@ + self.projection.sql_text() + " IS NULL"@
    }

    fn sql(&self) -> Self::Sql {
        let dot: sstr = ".";
        let test: sstr = " IS NULL";
        assert(dot.text() == "."@ && test.text() == " IS NULL"@);
        in_a_row_4(self.source.sql(), dot, self.projection.sql(), test)
    }
}

impl<Src: ToSql, Prj: Projection<Src>> ToSql for IsNotNull<Src, Prj> {
    type Sql = Join<sstr, (Src::Sql, sstr, Prj::Sql, sstr)>;

    open spec fn sql_text(&self) -> Seq<char> {
        self.source.sql_text() + "."@ + self.projection.sql_text() + " IS NOT NULL"@
    }

    fn sql(&self) -> Self::Sql {
        let dot: sstr = ".";
        let test: sstr = " IS NOT NULL";
        assert(dot.text() == "."@ && test.text() == " IS NOT NULL"@);
        in_a_row_4(self.source.sql(), dot, self.projection.sql(), test)
    }
}

impl<Src: ToSql, Prj: Projection<Src, Value = Type>, Type: ToSql> Condition<Src> for Equals<
    Src,
    Prj,
    Type,
> {

}

impl<Src: ToSql, Prj: Projection<Src, Value = Type>, Type: ToSql> Condition<Src> for NotEq<
    Src,
    Prj,
    Type,
> {

}

impl<Src: ToSql, Prj: Projection<Src, Value = Type>, Type: ToSql> Condition<Src> for Less<
    Src,
    Prj,
    Type,
> {

}

impl<Src: ToSql, Prj: Projection<Src, Value = Type>, Type: ToSql> Condition<Src> for Greater<
    Src,
    Prj,
    Type,
> {

}

impl<Src: ToSql, Prj: Projection<Src, Value = Type>, Type: ToSql> Condition<Src> for Leq<
    Src,
    Prj,
    Type,
> {

}

impl<Src: ToSql, Prj: Projection<Src, Value = Type>, Type: ToSql> Condition<Src> for Geq<
    Src,
    Prj,
    Type,
> {

}

impl<Src: ToSql, Prj: Projection<Src>> Condition<Src> for IsNull<Src, Prj> {

}

impl<Src: ToSql, Prj: Projection<Src>> Condition<Src> for IsNotNull<Src, Prj> {

}

} // verus!
