//! One page of a query.
use vstd::prelude::*;

verus! {

/// One page of the records that a query finds.
#[derive(Debug, Clone)]
pub struct QueryResponse<T> {
    pub total_size: i32,
    pub done: bool,
    pub records: Vec<T>,
    pub next_records_url: Option<String>,
}

} // verus!
