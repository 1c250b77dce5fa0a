//! Transcription clients for cloud speech services: audio framing, request
//! and message construction, and the decisions taken on server replies.

pub mod text;
pub mod pcm;
pub mod json;
pub mod encoding;
pub mod error;
pub mod credentials;
pub mod voxtral;
pub mod session;
pub mod streaming;
pub mod openrouter;
