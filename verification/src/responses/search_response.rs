//! The result of a search.
use vstd::prelude::*;

verus! {

/// The records that a search finds.
#[derive(Debug, Clone)]
pub struct SearchResponse {
    pub search_records: Vec<SearchRecord>,
}

/// One record of a search result.
#[derive(Debug, Clone)]
pub struct SearchRecord {
    pub id: String,
    pub attributes: SObjectAttribute,
}

/// The type and the address of a record.
#[derive(Debug, Clone)]
pub struct SObjectAttribute {
    pub sobject_type: String,
    pub url: String,
}

} // verus!
