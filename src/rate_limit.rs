use vstd::prelude::*;

use crate::error::RateLimitExceededError;

verus! {

/// The capacity of one key at the moment of a decision.
/// Times are milliseconds since the Unix epoch.
#[derive(Debug, Clone, Copy, PartialEq, Eq, Structural)]
pub struct RateLimit {
    pub available_tokens: usize,
    pub retry_after: i64,
    pub accepted: bool,
    pub limit: usize,
}

impl RateLimit {
    /// Returns the number of tokens available.
    pub fn get_remaining_tokens(&self) -> (r: usize)
        ensures
            r == self.available_tokens,
    {
        self.available_tokens
    }

    /// The time after which the request can be expected to go through.
    pub fn get_retry_after(&self) -> (r: i64)
        ensures
            r == self.retry_after,
    {
        self.retry_after
    }

    /// Whether the request was executed within the current limit.
    pub fn is_accepted(&self) -> (r: bool)
        ensures
            r == self.accepted,
    {
        self.accepted
    }

    /// The configured number of tokens per window.
    pub fn get_limit(&self) -> (r: usize)
        ensures
            r == self.limit,
    {
        self.limit
    }

    /// Like `is_accepted`, but a request that was not accepted becomes an error.
    pub fn ensure_accepted(&self) -> (r: Result<(), RateLimitExceededError>)
        ensures
            r is Ok <==> self.accepted,
    {
        if !self.accepted {
            return Err(RateLimitExceededError);
        }
        Ok(())
    }
}

} // verus!
