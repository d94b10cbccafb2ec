//! A bridge that lets code written against blocking `read`/`write` drive a
//! poll-based stream, one poll attempt per call, without ever waiting.
//!
//! - [`outcome`]: what a poll attempt reports and what the blocking-style
//!   caller is told in its place.
//! - [`adapter`]: the adapter itself, a stream with a slot for the task
//!   context, and its blocking-style operations.
//! - [`tracking`]: what is assumed of tokio's `ReadBuf`.
//! - [`laws`]: what holds of every blocking-style call.

pub mod adapter;
pub mod laws;
pub mod outcome;
pub mod tracking;
