//! Users and the permissions they are granted.

pub mod types;
pub mod methods;
