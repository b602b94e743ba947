pub mod types;
pub mod plan;
