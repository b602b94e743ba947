pub mod types;
pub mod result;
