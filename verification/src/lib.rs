//! A statically typed builder for SQL `SELECT` queries.
//!
//! A table is a type of its own, a column is bound to its table and to the
//! type of its values, and a query is put together in three steps:
//! `select`, `filter`, `finish`. A column of one table cannot be selected
//! from, or compared in a filter on, another table: such a query does not
//! type-check.
//!
//! Every piece of a query states the text it stands for as a sequence of
//! characters, and every function that renders one is proved to produce
//! exactly that text.
pub mod common;
pub mod column;
pub mod condition;
pub mod builder;
pub mod laws;
