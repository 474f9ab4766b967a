//! The refusal of a grant.
use vstd::prelude::*;

verus! {

/// The OAuth error body of the token endpoint.
#[derive(Debug, Clone)]
pub struct TokenErrorResponse {
    pub error: String,
    pub error_description: String,
}

/// What a [`TokenErrorResponse`] stands for.
pub struct TokenErrorResponseView {
    pub error: Seq<char>,
    pub error_description: Seq<char>,
}

impl View for TokenErrorResponse {
    type V = TokenErrorResponseView;

    open spec fn view(&self) -> TokenErrorResponseView {
        TokenErrorResponseView { error: self.error@, error_description: self.error_description@ }
    }
}

} // verus!
