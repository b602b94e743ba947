//! A client library for the ArangoDB REST API: typed request methods, the
//! entity types they exchange and the rules by which identifiers, paths and
//! parameters are formed.

pub mod api;
pub mod arango;
pub mod collection;
pub mod index;
pub mod document;
pub mod aql;
pub mod cursor;
pub mod user;
pub mod database;
pub mod admin;
pub mod authentication;
pub mod datasource;
pub mod statement;
pub mod graph;
pub mod connection;
