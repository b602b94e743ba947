pub mod types;
pub mod methods;
