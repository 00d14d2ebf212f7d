//! Orchestration core of a spoken-reply pipeline: prompt templating, token
//! stream aggregation and the per-turn protocol of a conversation session.
pub mod prompt;
pub mod session;
pub mod stream;
