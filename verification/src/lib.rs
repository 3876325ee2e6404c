//! An in-memory store of author records with create, list, fetch, replace and
//! delete operations, together with the HTTP-shaped answers that a service
//! built on it gives.
//!
//! The store keeps its records in insertion order and does not require ids to
//! be unique: every lookup by id settles on the first record that carries it.

pub mod json;
pub mod laws;
pub mod record;
pub mod service;
pub mod store;
