//! Client engine for a Gotify-style push-notification server: a typed error
//! taxonomy, an API client that builds authenticated requests and decodes
//! JSON responses, and a streaming listener state machine that survives
//! transient disconnects and relays decoded messages in arrival order.
pub mod decimal;
pub mod errors;
pub mod json;
pub mod listener;
pub mod model;
pub mod relay;
pub mod api;
pub mod client;
pub mod connection;
pub mod text;

pub use errors::GotifyError;
pub use json::JsonValue;
