//! The answer to an upsert.
use vstd::prelude::*;
use crate::responses::create_response::CreateResponse;

verus! {

/// What the platform answers to an upsert: a creation, where one took place.
#[derive(Debug, Clone)]
pub struct UpsertResponse {
    pub create: Option<CreateResponse>,
}

} // verus!
