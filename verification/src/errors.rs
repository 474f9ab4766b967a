//! The failures that the client reports.
use vstd::prelude::*;
use crate::responses::error_response::{ErrorResponse, ErrorResponseView, error_views};
use crate::responses::token_error_response::{TokenErrorResponse, TokenErrorResponseView};

verus! {

/// Why a call did not go through.
#[derive(Debug, Clone)]
pub enum Error {
    /// A call that needs a token was made while the session held none.
    NotLoggedIn,
    /// The token endpoint refused a grant.
    TokenError(TokenErrorResponse),
    /// The SOAP login answered with a fault.
    LoginError(ErrorResponse),
    /// A resource call answered with a list of errors.
    ErrorResponses(Vec<ErrorResponse>),
    /// A resource call answered with one error.
    DescribeError(ErrorResponse),
    /// The transport failed, or a header could not be built.
    TransportError(String),
    /// A reply did not have the expected shape.
    DeserializeError(String),
}

/// What an [`Error`] stands for.
pub enum ErrorView {
    NotLoggedIn,
    TokenError(TokenErrorResponseView),
    LoginError(ErrorResponseView),
    ErrorResponses(Seq<ErrorResponseView>),
    DescribeError(ErrorResponseView),
    TransportError(Seq<char>),
    DeserializeError(Seq<char>),
}

impl View for Error {
    type V = ErrorView;

    open spec fn view(&self) -> ErrorView {
        match *self {
            Error::NotLoggedIn => ErrorView::NotLoggedIn,
            Error::TokenError(e) => ErrorView::TokenError(e@),
            Error::LoginError(e) => ErrorView::LoginError(e@),
            Error::ErrorResponses(v) => ErrorView::ErrorResponses(error_views(v@)),
            Error::DescribeError(e) => ErrorView::DescribeError(e@),
            Error::TransportError(s) => ErrorView::TransportError(s@),
            Error::DeserializeError(s) => ErrorView::DeserializeError(s@),
        }
    }
}

/// Whether a result is the failure that `error` stands for.
pub open spec fn fails_with<T>(r: Result<T, Error>, error: ErrorView) -> bool {
    r matches Err(e) && e@ == error
}

} // verus!
