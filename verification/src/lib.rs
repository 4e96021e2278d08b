//! Verified core of a small user-management service backed by a document
//! store: the identifier discipline, the repository semantics for the CRUD
//! operations on users, the configuration rules, the route table, and the
//! mapping from operation outcomes to HTTP replies.

pub mod config;
pub mod health;
pub mod model;
pub mod oid;
pub mod router;
pub mod user_repository;
pub mod user_routes;
