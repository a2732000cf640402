//! Decision logic of a small student-records and chat-proxy service.
//!
//! Every handler is split into the decisions it takes, which live here and are
//! verified, and the I/O it performs, which the embedding program carries out.

pub mod config;
pub mod db;
pub mod error;
pub mod json;
pub mod routes;
pub mod text;
