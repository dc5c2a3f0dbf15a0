//! Core of a knife-style client for a Chef-compatible configuration
//! management server: canonical-string signing, authenticated header
//! assembly, request preparation, and response classification.

pub mod config;
pub mod crypto;
pub mod errors;
pub mod headers;
pub mod node;
pub mod request;
pub mod search;
pub mod ssh;
pub mod sign;
pub mod status;
