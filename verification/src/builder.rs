//! The three steps of a query: `select`, `filter`, `finish`.
//!
//! A table begins a query with `select`, which takes the projection.
//! `filter` adds the condition, and `finish` renders the query to a string.
//! Each step takes the step before it by value. There is no query without a
//! projection, a source and a condition.
//!
//! The items of the other modules are exported from here too, so that one
//! import line serves to build a query.
use vstd::prelude::*;
use std::marker::PhantomData;
pub use crate::column::Column;
pub use crate::common::join::Join;
pub use crate::common::{OptionT, Projection, Render, ToSql, sstr};
pub use crate::condition::{
    Both, Condition, Connect, Either, Equals, Geq, Greater, IsNotNull, IsNull, Leq, Less, Not, NotEq,
};

verus! {

/// The text of a query, from the texts of its three parts.
pub open spec fn select_text(projection: Seq<char>, source: Seq<char>, condition: Seq<char>) -> Seq<
    char,
> {
    "SELECT "@ + projection + " FROM "@ + source + " WHERE "@ + condition
}

/// Things that can be selected from. Each table defines a type of its own
/// that implements this.
///
/// A table type stands for one table and carries no state. Its SQL is its
/// name, whichever value of the type is asked.
pub trait Selectable: Default + Sized {
    /// The SQL name of the table.
    const NAME: sstr;

    /// Begins a query with the desired projection: a column of this table,
    /// or a tuple of them.
    fn select<P: Projection<Self>>(self, p: P) -> (r: Selected<Self, P>)
        ensures
            r.source == self,
            r.projection == p,
    {
        Selected { source: self, projection: p }
    }
}

// The SQL of a table is its name.
impl<T: Selectable> ToSql for T {
    type Sql = sstr;

    open spec fn sql_text(&self) -> Seq<char> {
        T::NAME@
    }

    fn sql(&self) -> sstr {
        T::NAME
    }
}

/// A selection that has yet to be filtered: so far the query is
/// `SELECT self.projection FROM self.source`.
pub struct Selected<Src, Prj> {
    pub source: Src,
    pub projection: Prj,
}

impl<Src, Prj> Selected<Src, Prj> {
    /// Filters a selection by a condition over the same source.
    pub fn filter<Cond>(self, condition: Cond) -> (r: Filtered<Src, Prj, Cond>) where
        Cond: Condition<Src>,

        ensures
            r.source() == self.source,
            r.projection() == self.projection,
            r.condition() == condition,
    {
        Filtered { source: self.source, projection: self.projection, condition }
    }
}

/// A filtered selection: the query is
/// `SELECT self.projection FROM self.source WHERE self.condition`.
pub struct Filtered<Src, Prj, Cond> {
    source: Src,
    projection: Prj,
    condition: Cond,
}

impl<Src, Prj, Cond> Filtered<Src, Prj, Cond> {
    /// The table that is selected from.
    pub closed spec fn source(&self) -> Src {
        self.source
    }

    /// What is selected.
    pub closed spec fn projection(&self) -> Prj {
        self.projection
    }

    /// What the rows are filtered by.
    pub closed spec fn condition(&self) -> Cond {
        self.condition
    }

    /// Finishes the query: renders it, and keeps the text and the
    /// projection.
    pub fn finish(self) -> (q: Query<Src, Prj>) where
        Src: Selectable,
        Prj: Projection<Src>,
        Cond: Condition<Src>,

        ensures
            q@ == select_text(
                self.projection().sql_text(),
                Src::NAME@,
                self.condition().sql_text(),
            ),
            q.conversion() == self.projection(),
    {
        let mut sql = String::new();
        sql.append("SELECT ");
        self.projection.sql().render(&mut sql);
        sql.append(" FROM ");
        self.source.sql().render(&mut sql);
        sql.append(" WHERE ");
        self.condition.sql().render(&mut sql);
        assert(sql@ =~= select_text(
            self.projection.sql_text(),
            self.source.sql_text(),
            self.condition.sql_text(),
        ));
        Query { sql, conversion: self.projection, _marker: PhantomData }
    }
}

/// A query that is ready to execute. It no longer holds its source table,
/// but is still tied to it by type, so that it can only be executed on a
/// connection that has that table.
#[derive(Debug)]
pub struct Query<Src, Prj> {
    pub sql: String,
    conversion: Prj,
    _marker: PhantomData<Src>,
}

impl<Src, Prj> View for Query<Src, Prj> {
    type V = Seq<char>;

    /// The text of the query: what the field `sql` holds.
    closed spec fn view(&self) -> Seq<char> {
        self.sql@
    }
}

impl<Src, Prj> Query<Src, Prj> {
    /// The projection that the query was built with.
    pub closed spec fn conversion(&self) -> Prj {
        self.conversion
    }

    /// The SQL of the query.
    pub fn as_str(&self) -> (s: &str)
        ensures
            s@ == self@,
    {
        self.sql.as_str()
    }
}

} // verus!
