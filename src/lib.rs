//! Asynchronous file writes and appends for a single-threaded, tick-driven host.
//!
//! The library holds the decisions: which identifiers are accepted, how a
//! submission is dispatched, how the outcome of a file operation becomes a status
//! code, and how completions are handed back to the host thread one tick at a time.
//! Running the file operations and the host's hooks is left to the embedding code.
pub mod status;
pub mod text;
pub mod separator;
pub mod whitelist;
pub mod sandbox;
pub mod job;
pub mod dispatcher;
pub mod laws;
