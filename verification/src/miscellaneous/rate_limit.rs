//! Records of the rate limit endpoint.

use vstd::prelude::*;

verus! {

/// The response of the rate limit endpoint.
#[derive(Clone, Debug, PartialEq)]
pub struct RateLimit {
    pub resources: RateLimitResources,
}

/// The per-resource rate limits.
#[derive(Clone, Debug, PartialEq)]
pub struct RateLimitResources {
    pub core: RateLimitElement,
    pub search: RateLimitElement,
}

/// One rate limit: its size, what remains of it, and when it resets.
#[derive(Clone, Debug, PartialEq)]
pub struct RateLimitElement {
    pub limit: u64,
    pub remaining: u64,
    pub reset: u64,
}

} // verus!
