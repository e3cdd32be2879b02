//! Exit codes for the application.

use vstd::prelude::*;

verus! {

/// Successful execution.
pub const SUCCESS: i32 = 0;

/// Network error (connection failed, timeout, DNS, TLS).
pub const NETWORK_ERROR: i32 = 1;

/// API error (the server returned an error response).
pub const API_ERROR: i32 = 2;

/// Configuration error (invalid arguments, missing configuration).
pub const CONFIG_ERROR: i32 = 3;

/// Partial failure (some measurements failed, others succeeded).
pub const PARTIAL_FAILURE: i32 = 4;

/// Unknown or unexpected error.
pub const UNKNOWN_ERROR: i32 = 99;

} // verus!
