//! Databases: their description and the requests that list, create and drop
//! them.

pub mod types;
pub mod methods;
