//! Logging in to the server.

pub mod methods;
