//! A dialect-independent SQL expression tree and renderers that turn it into
//! SQL text with an ordered list of bound values.
//!
//! An expression is built as a [`SimpleExpr`]. A dialect, which implements
//! [`QueryBuilder`], renders it into a [`SqlWriter`]: the text is written with
//! a placeholder for every literal, and the literals are collected in the
//! order of their placeholders. What a dialect adds to the common tree (its
//! functions, its units, its expression forms) stands under [`extension`].

pub mod backend;
pub mod expr;
pub mod extension;
pub mod func;
pub mod query;
pub mod text;
pub mod types;
pub mod value;
pub mod writer;

pub use backend::{BigQueryQueryBuilder, QueryBuilder};
pub use expr::SimpleExpr;
pub use extension::bigquery::{BqExpr, BqFunc, BqFunction, DateTimePart};
pub use func::{CommonFunction, Function, FunctionCall};
pub use query::SubQueryStatement;
pub use types::{Alias, DynIden, Iden, Keyword};
pub use value::Value;
pub use writer::SqlWriter;
