//! A verified client core for a multimodal (vision+text) chat-completion
//! HTTP API: media sources become content parts, a request is assembled and
//! serialized to its JSON wire form, responses are parsed down to the first
//! choice's text, and transient failures are retried with exponential
//! backoff. The transport itself — the POST and the sleeps — stays outside;
//! everything up to and after it is specified and proved here.
pub mod client;
pub mod config;
pub mod errors;
pub mod http;
pub mod media;
pub mod prompts;
pub mod response;
pub mod retry;
pub mod serialize;
pub mod text;
pub mod types;

pub use client::{process_image, process_video, PreparedRequest};
pub use config::{Provider, VisionConfig};
pub use errors::{MediaKind, VisionError};
pub use http::HttpResponse;
pub use types::ContentPart;
