//! The running of Apex tests.
use vstd::prelude::*;
use crate::text::{join_all, joined, texts};

verus! {

/// An Apex class.
#[derive(Debug)]
pub struct ApexClass {
    pub id: String,
    pub name: String,
}

/// The request to run the tests of some classes.
pub struct TestRunRequest {
    /// The ids of the classes, with a comma between one and the next.
    pub classids: String,
}

/// What the platform answers to a [`TestRunRequest`].
#[derive(Debug)]
pub struct TestRunResponse {
    pub id: String,
}

impl TestRunRequest {
    /// The request to run the tests of the classes with these ids.
    pub fn new(class_ids: Vec<String>) -> (r: TestRunRequest)
        ensures
            r.classids@ == joined(texts(class_ids@), ","@),
    {
        TestRunRequest { classids: join_all(&class_ids, ",") }
    }
}

} // verus!
