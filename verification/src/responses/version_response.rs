//! One API version of an instance.
use vstd::prelude::*;

verus! {

/// One API version that an instance offers.
#[derive(Debug, Clone)]
pub struct VersionResponse {
    pub label: String,
    pub url: String,
    pub version: String,
}

} // verus!
