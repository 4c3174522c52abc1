//! An in-memory user service: a store that maps auto-incremented integer
//! identifiers to user records, and the handler logic for the endpoints
//! that expose it.

pub mod handlers;
pub mod store;
