//! Renderers: the part shared by every dialect and the dialects themselves.

pub mod bigquery;
pub mod query_builder;
pub mod render;

pub use bigquery::BigQueryQueryBuilder;
pub use query_builder::QueryBuilder;
