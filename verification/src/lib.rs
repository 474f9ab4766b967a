//! Session and request engine of a Salesforce API client.
//!
//! The crate holds the part of the client that decides: which request a call
//! turns into, when a token has to be renewed, and what a reply does to the
//! session. It performs no I/O. A transport sends each [`http::Request`] and
//! hands the reply back.
pub mod access_token;
pub mod client;
pub mod errors;
pub mod freshness;
pub mod http;
pub mod responses;
pub mod text;
pub mod url;
pub mod xml;
