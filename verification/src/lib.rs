//! Request and reply logic of a small web backend that relays prompts to an
//! Ollama server, and the text post-processing that runs LLM output through
//! vector quantizers.

pub mod handlers;
pub mod json;
pub mod text;
pub mod ollama;
pub mod turbo;
pub mod types;

