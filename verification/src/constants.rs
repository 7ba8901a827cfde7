//! Fixed endpoints of the service.

use vstd::prelude::*;

verus! {

/// Base URL of the service.
pub const BASE: &'static str = "https://cook.md";

/// API endpoint for authentication and session management.
pub const API: &'static str = "https://cook.md/api";

/// Endpoint of the synchronization server.
pub const SYNC: &'static str = "https://cook.md/api";

} // verus!
