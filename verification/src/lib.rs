//! Point-to-point file transfer logic.
//!
//! Two components share one wire contract: a listener that accepts a single
//! file upload per connection and persists it under the receiver's downloads
//! directory, and a client that pushes one local file to a peer's listener.
//! This crate holds the decision logic of both sides — filename sanitization,
//! destination planning, request construction, and outcome classification —
//! each function carrying a contract that pins its result down. The
//! surrounding I/O (HTTP service and request, file reads and writes) lives in
//! a thin unverified shell that hands this crate plain values.

pub mod client;
pub mod filename;
pub mod listener;
