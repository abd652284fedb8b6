//! Core of a desktop chat assistant backend: a bounded conversation window
//! that builds prompts for a local inference server, an incremental decoder
//! for the server's streamed reply records, and a search pipeline that turns
//! a result-listing page into annotated search results (title, summary,
//! reading time, paywall flag, favicon).
//!
//! Network and GUI plumbing live outside this crate; the logic here is
//! verified, with the calls into the HTML and URL parsers held behind
//! trusted wrappers.

pub mod chat;
pub mod decoder;
pub mod extract;
pub mod search;
pub mod text;
