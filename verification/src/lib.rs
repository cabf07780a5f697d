//! Verified core of the Lytt HTTP service: clock formatting of durations,
//! the bookkeeping of background transcription jobs, and the decisions that
//! the HTTP handlers take on the results of the store, the embedder and the
//! language model.

pub mod api;
pub mod jobs;
mod util;

pub use util::format_seconds;
