use vstd::prelude::*;

mod fixed_window;
mod sliding_window;
pub mod guarantees;

use crate::error::ReserveError;
use crate::Reservation;

pub use fixed_window::{fixed_current, fixed_reserve, fresh_fixed_state, FixedWindowPolicy, FixedWindowState};
pub use sliding_window::{
    fresh_sliding_state, per_token, sliding_current, sliding_reserve, SlidingWindowPolicy,
    SlidingWindowState,
};

verus! {

/// Whether a wait of `wait` milliseconds is longer than the caller accepts.
pub open spec fn exceeds_max_wait(wait: int, max_time: Option<i64>) -> bool {
    match max_time {
        Some(m) => wait > m,
        None => false,
    }
}

/// A count of available tokens, with "unavailable" read as zero.
pub open spec fn or_zero(available: Option<usize>) -> usize {
    match available {
        Some(a) => a,
        None => 0,
    }
}

/// Whether an available count covers a request.
pub open spec fn covers(available: Option<usize>, tokens: usize) -> bool {
    match available {
        Some(a) => a >= tokens,
        None => false,
    }
}

pub fn covers_exec(available: Option<usize>, tokens: usize) -> (r: bool)
    ensures
        r == covers(available, tokens),
{
    match available {
        Some(a) => a >= tokens,
        None => false,
    }
}

pub fn or_zero_exec(available: Option<usize>) -> (r: usize)
    ensures
        r == or_zero(available),
{
    match available {
        Some(a) => a,
        None => 0,
    }
}

/// A rate-limiting policy bound to one key and one storage.
pub trait Policy: Sized {
    /// The condition under which the policy can be used.
    spec fn inv(&self) -> bool;

    /// Whether a reservation made at time `now` may return `r` and leave the
    /// policy as `next`.
    spec fn step(
        &self,
        tokens: usize,
        max_time: Option<i64>,
        now: i64,
        r: Result<Reservation, ReserveError>,
        next: Self,
    ) -> bool;

    /// Reserves `tokens` now, waiting at most `max_time` milliseconds if given.
    fn reserve(&mut self, tokens: usize, max_time: Option<i64>) -> (r: Result<
        Reservation,
        ReserveError,
    >)
        requires
            old(self).inv(),
        ensures
            final(self).inv(),
            exists|now: i64| old(self).step(tokens, max_time, now, r, *final(self)),
    ;

    /// Reserves `tokens` now with no bound on the wait.
    fn consume(&mut self, tokens: usize) -> (r: Result<Reservation, ReserveError>)
        requires
            old(self).inv(),
        ensures
            final(self).inv(),
            exists|now: i64| old(self).step(tokens, None, now, r, *final(self)),
    ;
}

} // verus!
