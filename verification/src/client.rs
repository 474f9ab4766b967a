//! The session, and the request builders that work on it.
pub mod bulk_api;
pub mod bulk_api_v2;
pub mod client;
pub mod dispatch;
pub mod headers;
pub mod login;
pub mod rest_api;
