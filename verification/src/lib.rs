//! A URL shortener's core: drawing short identifiers, creating, updating
//! and resolving links against a store that answers within a deadline, and
//! the check of the API key. The store itself is outside: each operation
//! here is a small machine that says which request to send next and takes
//! the store's reply.

pub mod auth;
pub mod error;
pub mod gateway;
pub mod id;
pub mod laws;
pub mod model;
pub mod provision;
pub mod resolve;
pub mod store;
