//! Configuration constants for AI providers.
use vstd::prelude::*;

verus! {

/// Default timeout for API requests in seconds
pub const DEFAULT_TIMEOUT_SECS: u64 = 30;

/// Maximum number of retry attempts for API calls
pub const MAX_RETRIES: u32 = 3;

/// Base delay in milliseconds for exponential backoff
pub const RETRY_BASE_DELAY_MS: u64 = 1000;

/// Minimum API key length for basic validation
pub const MIN_API_KEY_LENGTH: usize = 10;

/// Maximum text length for enhancement requests, in bytes of UTF-8
pub const MAX_TEXT_LENGTH: usize = 10_000;

} // verus!
