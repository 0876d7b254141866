//! Receives one media-server webhook event and hands it to a local command.
//!
//! The library holds the two halves of that bridge as plain functions on plain
//! values: `plex` decodes a multipart form body into an event record, and
//! `dispatch` decides, step by step, how the configured command is run for it.
//! `schema` is the record's shape as a JSON document, and `json` is where the
//! library meets `serde_json`, which reads and writes those documents.

use vstd::prelude::*;

pub mod dispatch;
pub mod json;
pub mod plex;
pub mod schema;

verus! {

/// Largest request body, in bytes, that the webhook route accepts.
pub const MAX_LENGTH: u64 = 1024 * 1024;

/// The configuration every dispatch shares: which command to run, and how many
/// seconds it may take.
#[derive(Debug, Clone, PartialEq, Eq)]
pub struct App {
    pub cmd: String,
    pub timeout: u64,
}

} // verus!
