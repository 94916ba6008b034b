//! Verified core of a chat application that relays streamed model output.
//!
//! The crate holds the decisions of the application: how streamed text
//! deltas are accumulated and rendered, when the finished text is persisted,
//! how upstream payloads are classified, and the small rules of the request
//! handlers. Transport, storage and templating live outside of it.

pub mod accumulator;
pub mod auth;
pub mod blog;
pub mod chat;
pub mod header;
pub mod json;
pub mod markdown;
pub mod middleware;
pub mod model;
pub mod relay;
pub mod run;
pub mod settings;
pub mod stream;
pub mod text;
