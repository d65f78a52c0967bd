//! Core of a minimal paste service: identifier generation and validation,
//! a key-value store with last-write-wins semantics, and the upload /
//! retrieve handlers that tie them together.
pub mod config;
pub mod handlers;
pub mod paste_id;
pub mod store;
