//! The building blocks shared by all requests: parameters, queries, results,
//! credentials and the error codes of the server.

pub mod arg;
pub mod auth;
pub mod error_code;
pub mod method;
pub mod query;
pub mod text;
pub mod types;
