//! The version of the server and of its databases.

pub mod types;
pub mod methods;
