//! The renderer of the BigQuery dialect.

use vstd::prelude::*;

pub mod query;

verus! {

/// The renderer of the BigQuery dialect.
#[derive(Debug, Clone, Copy)]
pub struct BigQueryQueryBuilder;

} // verus!
