//! Engine specific SQL features.

pub mod bigquery;
