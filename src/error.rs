use vstd::prelude::*;

verus! {

/// Why a builder could not be completed.
#[derive(Debug, Clone, Copy, PartialEq, Eq, Structural)]
pub enum BuilderError {
    KeyNotConfiguredError,
    PolicyNotConfiguredError,
}

/// Why a policy could not be constructed.
#[derive(Debug, Clone, Copy, PartialEq, Eq, Structural)]
pub enum PolicyError {
    ZeroLimitError,
    EmptyKeyError,
}

/// Why a reservation was refused. Both variants leave the stored state untouched.
#[derive(Debug, Clone, Copy, PartialEq, Eq, Structural)]
pub enum ReserveError {
    /// More tokens were asked for than the limiter can ever hold.
    TooManyTokensError { requested: usize, max: usize },
    /// The wait needed for the request is longer than the caller accepts.
    MaxWaitDurationExceededError,
}

/// Returned by `RateLimit::ensure_accepted` for a request that was not accepted.
#[derive(Debug, Clone, Copy, PartialEq, Eq, Structural)]
pub struct RateLimitExceededError;

} // verus!
