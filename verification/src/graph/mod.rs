//! Graphs and their edges.

pub mod types;
