//! Serving engine for named SQL queries over JSON-backed sources: identifier
//! checks, generated SQL, dependency resolution between queries and sources,
//! mapping of engine values to JSON, and the decisions behind live updates.

pub mod api;
pub mod calendar;
pub mod cli_config;
pub mod config;
pub mod db;
pub mod error;
pub mod events;
pub mod ident;
pub mod json;
pub mod paths;
pub mod sql;
pub mod text;
