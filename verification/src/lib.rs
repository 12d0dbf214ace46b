//! Configuration, query and persistence logic of a small to-do web service,
//! with the contracts that Verus checks.

pub mod text;
pub mod env;
pub mod config;
pub mod sql;
pub mod query_params;
pub mod models;
pub mod routes;
