//! A provider-agnostic text-to-speech adapter core: a uniform error taxonomy,
//! exponential-backoff retry, an HTTP request/response model, a record/replay
//! durability journal, and per-provider voice catalogs and request shaping.

pub mod cache;
pub mod config;
pub mod deepgram;
pub mod durability;
pub mod elevenlabs;
pub mod error;
pub mod google;
pub mod guest;
pub mod http;
pub mod polly;
pub mod retry;
pub mod streaming;
pub mod synthesis;
pub mod text;
pub mod translate;
pub mod types;
pub mod voices;
