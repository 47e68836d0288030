use vstd::prelude::*;

use crate::RateLimit;

verus! {

/// A decision together with the time at which the caller should act on it.
#[derive(Debug, Clone, Copy, PartialEq, Eq, Structural)]
pub struct Reservation {
    /// Milliseconds since the Unix epoch at which this reservation should act.
    pub time_to_act: i64,
    pub rate_limit: RateLimit,
}

impl Reservation {
    pub fn get_time_to_act(&self) -> (r: i64)
        ensures
            r == self.time_to_act,
    {
        self.time_to_act
    }

    pub fn get_rate_limit(&self) -> (r: &RateLimit)
        ensures
            *r == self.rate_limit,
    {
        &self.rate_limit
    }
}

} // verus!
