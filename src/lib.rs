//! An adapter for chat-platform outgoing webhooks: form-encoded calls come in
//! as a [`Request`], a handler answers with a [`Response`], and the answer goes
//! back as a small JSON object.
pub mod bot;
pub mod request;
pub mod response;

pub use bot::{Bot, Outcome};
pub use request::Request;
pub use response::{json_object, Response};
