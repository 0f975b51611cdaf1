//! A resilient client for a hosted large-language-model completion API.
//!
//! The library routes each prompt to the API shape its model requires,
//! enforces the model's context-window limit before anything is sent, builds
//! the transport and retry policy the calls run over, and turns the
//! provider's response into a trimmed text result or a classified failure.

pub mod budget;
pub mod client;
pub mod errors;
pub mod strategy;
pub mod text;
