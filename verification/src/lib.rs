//! Import coordination for bulk-loading IP blocklists into a remote
//! access-control API.
//!
//! The library holds the logic of the service: parsing a raw comma-separated
//! blocklist into an ordered list of trimmed, non-empty IP strings; the
//! single-permit guard that admits at most one import at a time; the import
//! job state machine that walks the list strictly in order and continues past
//! individual failures; the dispatcher decision that either rejects an
//! overlapping import with a conflict or accepts and hands back a pending job;
//! and the mapping from errors to HTTP response parts. The HTTP plumbing that
//! drives these decisions lives outside the library.

pub mod blocklist;
pub mod decimal;
pub mod dispatch;
pub mod errors;
pub mod guard;
pub mod job;
pub mod plugin;
pub mod upstream;
