//! Remote document payloads and responses.
pub mod client;
