//! One error of a resource call.
use vstd::prelude::*;
use crate::text::texts;

verus! {

/// An error as the REST and bulk endpoints report it.
#[derive(Debug, Clone)]
pub struct ErrorResponse {
    pub message: String,
    pub error_code: String,
    pub fields: Option<Vec<String>>,
}

/// What an [`ErrorResponse`] stands for.
pub struct ErrorResponseView {
    pub message: Seq<char>,
    pub error_code: Seq<char>,
    pub fields: Option<Seq<Seq<char>>>,
}

impl View for ErrorResponse {
    type V = ErrorResponseView;

    open spec fn view(&self) -> ErrorResponseView {
        ErrorResponseView {
            message: self.message@,
            error_code: self.error_code@,
            fields: match self.fields {
                Some(f) => Some(texts(f@)),
                None => None,
            },
        }
    }
}

/// What a list of errors stands for.
pub open spec fn error_views(v: Seq<ErrorResponse>) -> Seq<ErrorResponseView> {
    v.map_values(|e: ErrorResponse| e@)
}

impl Default for ErrorResponse {
    /// The error with empty texts and no field list.
    fn default() -> (r: ErrorResponse)
        ensures
            r@.message == Seq::<char>::empty(),
            r@.error_code == Seq::<char>::empty(),
            r@.fields is None,
    {
        ErrorResponse { message: String::new(), error_code: String::new(), fields: None }
    }
}

} // verus!
