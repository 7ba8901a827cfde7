//! Credential lifecycle and sync orchestration core for a recipe-sync agent.
//!
//! The library parses bearer tokens, persists sessions through a pluggable
//! secret store, decides credential refreshes, and drives the retry, status
//! and cancellation logic of the synchronization loop. All executable logic
//! here is verified; the surrounding process (network, browser, OS keyring
//! backend) supplies plain values through the small trusted seams documented
//! at each site.

pub mod api;
pub mod auth;
pub mod b64;
pub mod bridge;
pub mod cancel;
pub mod config;
pub mod constants;
pub mod errors;
pub mod json;
pub mod manager;
pub mod retry;
pub mod session;
pub mod status;
pub mod store;
pub mod strutil;
pub mod token;
pub mod welcome;
pub mod urlenc;

pub use errors::SyncError;

use vstd::prelude::*;

verus! {

/// A result type carrying this library's error.
pub type SyncResult<T> = Result<T, SyncError>;

} // verus!
