//! The list of the objects of an instance.
use vstd::prelude::*;
use crate::responses::describe_global_sobject_response::DescribeGlobalSObjectResponse;

verus! {

/// The objects of an instance.
#[derive(Debug, Clone)]
pub struct DescribeGlobalResponse {
    pub encoding: String,
    pub max_batch_size: u16,
    pub sobjects: Vec<DescribeGlobalSObjectResponse>,
}

} // verus!
