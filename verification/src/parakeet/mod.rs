//! The Parakeet models and the defaults of the sidecar protocol.
pub mod messages;
pub mod models;
