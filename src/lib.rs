//! Session and query-execution core of a PostgreSQL desktop client: the
//! connection registry, the session pool, cell materialization of query
//! results, and the relationship graph built from catalog rows.
pub mod catalog;
pub mod connection;
pub mod erd;
pub mod models;
pub mod pool;
pub mod query;
pub mod registry;
pub mod schema;
pub mod secrets;
pub mod table;
pub mod text;
