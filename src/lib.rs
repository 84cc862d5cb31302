//! State model, key dispatch and submission payloads of a terminal form that
//! files error reports into remote documents.
pub mod app;
pub mod events;
pub mod notion;
pub mod text;
