//! A client for a local language-model inference server: prompt construction,
//! request framing, and the interpretation of the server's replies.

pub mod client;
pub mod prompt;
pub mod protocol;
pub mod text;

pub use client::{
    ClientError, HealthStatus, HttpOutcome, HttpRequest, Method, OllamaClient, TranslateRequest,
    TranslateResponse,
};
