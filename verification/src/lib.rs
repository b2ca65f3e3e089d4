//! Client-side authentication and request orchestration for a remote
//! job-submission API.
//!
//! The library manages a two-tier token lifecycle: a long-lived credential is
//! exchanged for short-lived bearer tokens, and a single business operation
//! (submitting a document-processing job) is wrapped with lazy token
//! acquisition, expiry-aware refresh, and a one-shot retry on authorization
//! failure. The network itself is left to a driver outside this crate: the
//! flow functions here decide, step by step, which request to issue next and
//! how each response changes the token cache.

pub mod cache;
pub mod client;
pub mod errors;
pub mod expiry;
pub mod flow;
pub mod laws;
