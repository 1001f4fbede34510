//! Companion client for a remote time-tracking service: the data it
//! exchanges with the service, the rules of its stop-watch timer, and the
//! handling of stored credentials.

pub mod text;
pub mod clock;
pub mod error;
pub mod model;
pub mod endpoint;
pub mod obfuscation;
pub mod settings;
pub mod cancel;
pub mod timer;
