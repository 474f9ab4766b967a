//! The answer to the creation of a record.
use vstd::prelude::*;

verus! {

/// What the platform answers when a record is created.
#[derive(Debug, Clone)]
pub struct CreateResponse {
    pub id: String,
    pub success: bool,
}

} // verus!
