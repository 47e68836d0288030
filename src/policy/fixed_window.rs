use vstd::prelude::*;

use crate::clock::{clamp_i64, clamp_usize, now_millis, saturate_i64};
use crate::error::{PolicyError, ReserveError};
use crate::policy::{covers, covers_exec, exceeds_max_wait, or_zero, or_zero_exec, Policy};
use crate::storage::{State, Storage};
use crate::{RateLimit, Reservation};

verus! {

/// The counter of one key under the fixed-window algorithm.
/// Times are milliseconds since the Unix epoch.
#[derive(Debug, Clone)]
pub struct FixedWindowState {
    pub key: String,
    pub hit_count: usize,
    /// Window length in milliseconds.
    pub interval: i64,
    pub max_size: usize,
    /// Start of the current window.
    pub timer: i64,
}

impl FixedWindowState {
    /// More than one interval has passed since the window started.
    pub open spec fn is_stale(&self, now: i64) -> bool {
        now - self.timer > self.interval
    }

    /// Tokens left at `now`; `None` when the counter is past the capacity.
    pub open spec fn available_at(&self, now: i64) -> Option<usize> {
        if self.is_stale(now) {
            Some(self.max_size)
        } else if self.hit_count > self.max_size {
            None
        } else {
            Some((self.max_size - self.hit_count) as usize)
        }
    }

    /// Milliseconds until `tokens` can be had: none if they are there now,
    /// else until the window resets.
    pub open spec fn wait_at(&self, tokens: usize, now: i64) -> int {
        if covers(self.available_at(now), tokens) {
            0
        } else {
            clamp_i64(self.timer + self.interval - now)
        }
    }

    /// The state after `hits` are counted at `now`, resetting a stale window first.
    pub open spec fn added(self, hits: usize, now: i64) -> FixedWindowState {
        if self.is_stale(now) {
            FixedWindowState { timer: now, hit_count: hits, ..self }
        } else {
            FixedWindowState { hit_count: clamp_usize(self.hit_count + hits) as usize, ..self }
        }
    }

    pub fn new(key: String, interval: i64, max_size: usize) -> (r: Self)
        ensures
            r == fresh_fixed_state(key, interval, max_size),
    {
        FixedWindowState { key, hit_count: 0, interval, max_size, timer: 0 }
    }

    /// Counts `hits` (one if not given) at `now`.
    pub fn add(&mut self, hits: Option<usize>, now: i64)
        ensures
            *final(self) == old(self).added(
                match hits {
                    Some(h) => h,
                    None => 1usize,
                },
                now,
            ),
    {
        let hits = match hits {
            Some(h) => h,
            None => 1,
        };
        if (now as i128) - (self.timer as i128) > self.interval as i128 {
            self.timer = now;
            self.hit_count = hits;
        } else if self.hit_count > usize::MAX - hits {
            self.hit_count = usize::MAX;
        } else {
            self.hit_count = self.hit_count + hits;
        }
    }

    pub fn get_available_tokens(&self, now: i64) -> (r: Option<usize>)
        ensures
            r == self.available_at(now),
    {
        if (now as i128) - (self.timer as i128) > self.interval as i128 {
            return Some(self.max_size);
        }
        if self.hit_count > self.max_size {
            return None;
        }
        Some(self.max_size - self.hit_count)
    }

    pub fn calculate_time_for_tokens(&self, tokens: usize, now: i64) -> (r: i64)
        ensures
            r == self.wait_at(tokens, now),
    {
        if covers_exec(self.get_available_tokens(now), tokens) {
            return 0;
        }
        saturate_i64(self.timer as i128 + self.interval as i128 - now as i128)
    }
}

impl State for FixedWindowState {
    open spec fn id(&self) -> Seq<char> {
        self.key@
    }

    fn get_id(&self) -> (r: String) {
        self.key.clone()
    }

    /// The window's length, or zero for a negative one.
    open spec fn expiration(&self) -> usize {
        if self.interval < 0 {
            0
        } else {
            self.interval as usize
        }
    }

    fn get_expiration_time(&self) -> (r: usize) {
        if self.interval < 0 {
            0
        } else {
            self.interval as usize
        }
    }

    fn copy_state(&self) -> (r: Self) {
        FixedWindowState {
            key: self.key.clone(),
            hit_count: self.hit_count,
            interval: self.interval,
            max_size: self.max_size,
            timer: self.timer,
        }
    }
}

/// The state that a key starts with.
pub open spec fn fresh_fixed_state(key: String, interval: i64, limit: usize) -> FixedWindowState {
    FixedWindowState { key, hit_count: 0, interval, max_size: limit, timer: 0 }
}

/// The state of `key` as a reservation finds it.
pub open spec fn fixed_current(
    stored: Map<Seq<char>, FixedWindowState>,
    key: String,
    interval: i64,
    limit: usize,
) -> FixedWindowState {
    if stored.contains_key(key@) {
        stored[key@]
    } else {
        fresh_fixed_state(key, interval, limit)
    }
}

/// What a fixed-window reservation at `now` returns, and the stored states after it.
pub open spec fn fixed_reserve(
    stored: Map<Seq<char>, FixedWindowState>,
    key: String,
    limit: usize,
    interval: i64,
    tokens: usize,
    max_time: Option<i64>,
    now: i64,
) -> (Result<Reservation, ReserveError>, Map<Seq<char>, FixedWindowState>) {
    if tokens > limit {
        (Err(ReserveError::TooManyTokensError { requested: tokens, max: limit }), stored)
    } else {
        let state = fixed_current(stored, key, interval, limit);
        if tokens == 0 {
            let retry = clamp_i64(now + state.wait_at(0, now)) as i64;
            (
                Ok(
                    Reservation {
                        time_to_act: now,
                        rate_limit: RateLimit {
                            available_tokens: or_zero(state.available_at(now)),
                            retry_after: retry,
                            accepted: true,
                            limit,
                        },
                    },
                ),
                stored,
            )
        } else if covers(state.available_at(now), tokens) {
            let next = state.added(tokens, now);
            (
                Ok(
                    Reservation {
                        time_to_act: now,
                        rate_limit: RateLimit {
                            available_tokens: or_zero(next.available_at(now)),
                            retry_after: now,
                            accepted: true,
                            limit,
                        },
                    },
                ),
                stored.insert(key@, next),
            )
        } else {
            let wait = state.wait_at(tokens, now);
            if exceeds_max_wait(wait, max_time) {
                (Err(ReserveError::MaxWaitDurationExceededError), stored)
            } else {
                let next = state.added(tokens, now);
                let retry = clamp_i64(now + wait) as i64;
                (
                    Ok(
                        Reservation {
                            time_to_act: retry,
                            rate_limit: RateLimit {
                                available_tokens: or_zero(next.available_at(now)),
                                retry_after: retry,
                                accepted: false,
                                limit,
                            },
                        },
                    ),
                    stored.insert(key@, next),
                )
            }
        }
    }
}

/// The fixed-window policy: a counter that resets when a full interval has
/// passed since the window started.
pub struct FixedWindowPolicy<'a, Store: Storage<FixedWindowState>> {
    limit: usize,
    key: String,
    interval: i64,
    storage: &'a mut Store,
}

impl<'a, Store: Storage<FixedWindowState>> FixedWindowPolicy<'a, Store> {
    pub closed spec fn limit(&self) -> usize {
        self.limit
    }

    pub closed spec fn key(&self) -> String {
        self.key
    }

    pub closed spec fn interval(&self) -> i64 {
        self.interval
    }

    pub closed spec fn storage(&self) -> Store {
        *self.storage
    }

    /// A policy of `limit` tokens per `interval` milliseconds for `key`.
    pub fn new(limit: usize, key: String, interval: i64, storage: &'a mut Store) -> (r: Result<
        Self,
        PolicyError,
    >)
        ensures
            limit == 0 ==> r == Err::<Self, PolicyError>(PolicyError::ZeroLimitError),
            limit > 0 && key@.len() == 0 ==> r == Err::<Self, PolicyError>(
                PolicyError::EmptyKeyError,
            ),
            limit > 0 && key@.len() > 0 ==> r is Ok,
            r matches Ok(p) ==> p.limit() == limit && p.key() == key && p.interval() == interval
                && p.storage() == *old(storage),
            r is Err ==> *final(storage) == *old(storage),
    {
        if limit == 0 {
            return Err(PolicyError::ZeroLimitError);
        }
        if key.as_str().is_empty() {
            return Err(PolicyError::EmptyKeyError);
        }
        Ok(FixedWindowPolicy { limit, key, interval, storage })
    }

    /// Reserves `tokens` at time `now`, waiting at most `max_time` milliseconds if given.
    ///
    /// A probe (zero tokens) stores nothing, is accepted to act now, and reports
    /// the available tokens, with the wait for zero tokens as `retry_after`. A request that fits is
    /// counted and accepted now. One that does not is counted and deferred to
    /// the end of the window, unless that wait exceeds `max_time`, in which case
    /// nothing is stored.
    pub fn reserve_at(&mut self, tokens: usize, max_time: Option<i64>, now: i64) -> (r: Result<
        Reservation,
        ReserveError,
    >)
        requires
            old(self).storage().well_formed(),
        ensures
            final(self).storage().well_formed(),
            final(self).limit() == old(self).limit(),
            final(self).key() == old(self).key(),
            final(self).interval() == old(self).interval(),
            (r, final(self).storage().stored()) == fixed_reserve(
                old(self).storage().stored(),
                old(self).key(),
                old(self).limit(),
                old(self).interval(),
                tokens,
                max_time,
                now,
            ),
    {
        if tokens > self.limit {
            return Err(ReserveError::TooManyTokensError { requested: tokens, max: self.limit });
        }
        let fetched = self.storage.fetch(self.key.as_str());
        let mut state = match fetched {
            Some(s) => s,
            None => FixedWindowState::new(self.key.clone(), self.interval, self.limit),
        };
        let available = state.get_available_tokens(now);
        let reservation = if tokens == 0 {
            let wait = state.calculate_time_for_tokens(0, now);
            let retry = saturate_i64(now as i128 + wait as i128);
            Reservation {
                time_to_act: now,
                rate_limit: RateLimit {
                    available_tokens: or_zero_exec(available),
                    retry_after: retry,
                    accepted: true,
                    limit: self.limit,
                },
            }
        } else if covers_exec(available, tokens) {
            state.add(Some(tokens), now);
            Reservation {
                time_to_act: now,
                rate_limit: RateLimit {
                    available_tokens: or_zero_exec(state.get_available_tokens(now)),
                    retry_after: now,
                    accepted: true,
                    limit: self.limit,
                },
            }
        } else {
            let wait = state.calculate_time_for_tokens(tokens, now);
            if let Some(m) = max_time {
                if wait > m {
                    return Err(ReserveError::MaxWaitDurationExceededError);
                }
            }
            state.add(Some(tokens), now);
            let retry = saturate_i64(now as i128 + wait as i128);
            Reservation {
                time_to_act: retry,
                rate_limit: RateLimit {
                    available_tokens: or_zero_exec(state.get_available_tokens(now)),
                    retry_after: retry,
                    accepted: false,
                    limit: self.limit,
                },
            }
        };
        if tokens > 0 {
            self.storage.save(self.key.clone(), state);
        }
        Ok(reservation)
    }
}

impl<'a, Store: Storage<FixedWindowState>> Policy for FixedWindowPolicy<'a, Store> {
    open spec fn inv(&self) -> bool {
        &&& self.limit() > 0
        &&& self.storage().well_formed()
    }

    open spec fn step(
        &self,
        tokens: usize,
        max_time: Option<i64>,
        now: i64,
        r: Result<Reservation, ReserveError>,
        next: Self,
    ) -> bool {
        &&& next.limit() == self.limit()
        &&& next.key() == self.key()
        &&& next.interval() == self.interval()
        &&& (r, next.storage().stored()) == fixed_reserve(
            self.storage().stored(),
            self.key(),
            self.limit(),
            self.interval(),
            tokens,
            max_time,
            now,
        )
    }

    fn reserve(&mut self, tokens: usize, max_time: Option<i64>) -> (r: Result<
        Reservation,
        ReserveError,
    >) {
        let now = now_millis();
        let r = self.reserve_at(tokens, max_time, now);
        assert(old(self).step(tokens, max_time, now, r, *self));
        r
    }

    fn consume(&mut self, tokens: usize) -> (r: Result<Reservation, ReserveError>) {
        self.reserve(tokens, None)
    }
}

} // verus!
