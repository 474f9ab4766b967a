//! The shapes of the platform's replies.
pub mod create_response;
pub mod deploy_response;
pub mod describe_global_response;
pub mod describe_global_sobject_response;
pub mod describe_response;
pub mod error_response;
pub mod query_response;
pub mod register_response;
pub mod search_response;
pub mod test_run;
pub mod token_error_response;
pub mod token_response;
pub mod upsert_response;
pub mod version_response;
