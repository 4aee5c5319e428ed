//! Columns of SQL tables.
//!
//! A column is bound by its type to the table it belongs to and to the Rust
//! type of its values. Conditions are built from columns, and a column is
//! the simplest projection.
use vstd::prelude::*;
use std::marker::PhantomData;
use crate::builder::Selectable;
use crate::common::{Projection, ToSql, sstr};
use crate::condition::{Equals, Geq, Greater, IsNotNull, IsNull, Leq, Less, NotEq};

verus! {

/// A column of a table, whose values convert to a Rust type.
///
/// For a table type `UserTable: Selectable` with the two fields
///
///   - `id`, a SQL `INTEGER NOT NULL`,
///   - `login_count`, a SQL `INTEGER`,
///
/// the columns would be
///
/// ```text
/// const ID: Column<UserTable, i64> = Column {
///     name: "id",
///     position: 0,
///     _table_marker: PhantomData,
///     _type_marker: PhantomData,
/// };
///
/// const LOGIN_COUNT: Column<UserTable, Option<i64>> = Column {
///     name: "login_count",
///     position: 3,
///     _table_marker: PhantomData,
///     _type_marker: PhantomData,
/// };
/// ```
pub struct Column<Table, Type> {
    /// The name of the column.
    pub name: sstr,
    /// The zero based index of the column in the table.
    pub position: usize,
    /// The table that the column belongs to.
    pub _table_marker: PhantomData<Table>,
    /// The Rust type of the column's values.
    pub _type_marker: PhantomData<Type>,
}

impl<Table, Type> Clone for Column<Table, Type> {
    fn clone(&self) -> (r: Self)
        ensures
            r == *self,
    {
        Column {
            name: self.name,
            position: self.position,
            _table_marker: PhantomData,
            _type_marker: PhantomData,
        }
    }
}

impl<Table: Selectable, Type> Column<Table, Type> {
    /// The condition that the column equals some value.
    pub fn equals(self, other: Type) -> (r: Equals<Table, Self, Type>)
        ensures
            r.source.sql_text() == Table::NAME@,
            r.projection == self,
            r.value == other,
    {
        Equals { source: Table::default(), projection: self, value: other }
    }

    /// The condition that the column is null.
    pub fn null(self) -> (r: IsNull<Table, Self>)
        ensures
            r.source.sql_text() == Table::NAME@,
            r.projection == self,
            r.sql_text() == Table::NAME@ + "."@ + self.name@ + " IS NULL"@,
    {
        IsNull { source: Table::default(), projection: self }
    }

    /// The condition that the column is not null.
    pub fn not_null(self) -> (r: IsNotNull<Table, Self>)
        ensures
            r.source.sql_text() == Table::NAME@,
            r.projection == self,
            r.sql_text() == Table::NAME@ + "."@ + self.name@ + " IS NOT NULL"@,
    {
        IsNotNull { source: Table::default(), projection: self }
    }

    /// The condition that the column is greater than some value.
    pub fn greater_than(self, other: Type) -> (r: Greater<Table, Self, Type>)
        ensures
            r.source.sql_text() == Table::NAME@,
            r.projection == self,
            r.value == other,
    {
        Greater { source: Table::default(), projection: self, value: other }
    }

    /// The condition that the column is less than some value.
    pub fn less_than(self, other: Type) -> (r: Less<Table, Self, Type>)
        ensures
            r.source.sql_text() == Table::NAME@,
            r.projection == self,
            r.value == other,
    {
        Less { source: Table::default(), projection: self, value: other }
    }

    /// The condition that the column is less than or equal to some value.
    pub fn leq(self, other: Type) -> (r: Leq<Table, Self, Type>)
        ensures
            r.source.sql_text() == Table::NAME@,
            r.projection == self,
            r.value == other,
    {
        Leq { source: Table::default(), projection: self, value: other }
    }

    /// The condition that the column is greater than or equal to some value.
    pub fn geq(self, other: Type) -> (r: Geq<Table, Self, Type>)
        ensures
            r.source.sql_text() == Table::NAME@,
            r.projection == self,
            r.value == other,
    {
        Geq { source: Table::default(), projection: self, value: other }
    }

    /// The condition that the column is not equal to some value.
    pub fn not_equals(self, other: Type) -> (r: NotEq<Table, Self, Type>)
        ensures
            r.source.sql_text() == Table::NAME@,
            r.projection == self,
            r.value == other,
    {
        NotEq { source: Table::default(), projection: self, value: other }
    }
}

// A column can be projected from its table, and gives values of its type.
impl<Table, Type> Projection<Table> for Column<Table, Type> {
    type Value = Type;
}

// The SQL to project a column is just its name: it is the condition or the
// query around it that names the table.
impl<Table, Type> ToSql for Column<Table, Type> {
    type Sql = sstr;

    open spec fn sql_text(&self) -> Seq<char> {
        self.name@
    }

    fn sql(&self) -> sstr {
        self.name
    }
}

} // verus!
