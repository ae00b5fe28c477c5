//! A remote state backend: one serialized state document per resource id,
//! guarded by an advisory lock per resource id.
//!
//! The store, the lock arbitration and every decision a request handler
//! takes live here and are verified. The network, the database driver and
//! the clock stay with the caller: every write is handed its time.
pub mod config;
pub mod db;
pub mod error;
pub mod extractors;
pub mod json;
pub mod routes;
pub mod text;
