use vstd::prelude::*;

use crate::clock::{clamp_i64, clamp_usize, now_millis, saturate_i64};
use crate::error::{PolicyError, ReserveError};
use crate::policy::{covers, covers_exec, exceeds_max_wait, or_zero, or_zero_exec, Policy};
use crate::storage::{State, Storage};
use crate::{RateLimit, Reservation};

verus! {

/// The counters of one key under the sliding-window algorithm: the current
/// window and the total of the window before it.
/// Times are milliseconds since the Unix epoch.
#[derive(Debug, Clone)]
pub struct SlidingWindowState {
    pub key: String,
    pub hit_count: usize,
    pub hit_count_for_last_window: usize,
    /// Window length in milliseconds.
    pub interval: i64,
    /// End of the current window.
    pub window_end_at: i64,
}

/// Milliseconds per token at which a full window drains, zero where undefined.
pub open spec fn per_token(interval: i64, limit: usize) -> int {
    if interval > 0 && limit > 0 {
        interval as int / limit as int
    } else {
        0
    }
}

impl SlidingWindowState {
    /// Time passed since the current window began, kept within `[0, interval]`.
    pub open spec fn elapsed_at(&self, now: i64) -> int {
        let passed = now - (self.window_end_at - self.interval);
        if passed < 0 {
            0
        } else if passed > self.interval {
            self.interval as int
        } else {
            passed
        }
    }

    /// Time left in the current window; zero for a window without length.
    pub open spec fn remaining_at(&self, now: i64) -> int {
        if self.interval <= 0 {
            0
        } else {
            self.interval - self.elapsed_at(now)
        }
    }

    /// The previous window's hits weighted by the share of the current window
    /// still ahead, rounded down.
    pub open spec fn carried_at(&self, now: i64) -> int {
        if self.interval <= 0 {
            0
        } else {
            (self.hit_count_for_last_window * self.remaining_at(now)) / (self.interval as int)
        }
    }

    /// The sliding hit count at `now`, saturating at `usize::MAX`.
    pub open spec fn hits_at(&self, now: i64) -> int {
        clamp_usize(self.hit_count + self.carried_at(now))
    }

    /// Tokens left at `now` under `limit`; `None` when the hits exceed it.
    pub open spec fn available_at(&self, limit: usize, now: i64) -> Option<usize> {
        if self.hits_at(now) > limit {
            None
        } else {
            Some((limit - self.hits_at(now)) as usize)
        }
    }

    /// Milliseconds until `tokens` can be had under `limit`.
    pub open spec fn wait_at(&self, limit: usize, tokens: usize, now: i64) -> int {
        let available = self.available_at(limit, now);
        if covers(available, tokens) {
            0
        } else {
            let needed = tokens - or_zero(available);
            let releasable = if limit - self.carried_at(now) < 1 {
                1
            } else {
                limit - self.carried_at(now)
            };
            if releasable >= needed {
                clamp_i64((needed * self.remaining_at(now)) / releasable)
            } else {
                clamp_i64(
                    (self.window_end_at - now) + (needed - releasable) * per_token(
                        self.interval,
                        limit,
                    ),
                )
            }
        }
    }

    pub open spec fn is_expired_at(&self, now: i64) -> bool {
        now > self.window_end_at
    }

    /// The state after `hits` more are counted in the current window.
    pub open spec fn added(self, hits: usize) -> SlidingWindowState {
        SlidingWindowState { hit_count: clamp_usize(self.hit_count + hits) as usize, ..self }
    }

    /// The window that follows `self` at `now`: contiguous, carrying the hit
    /// count, if less than one interval has passed since `self` ended; else fresh.
    pub open spec fn rolled(self, interval: i64, now: i64) -> SlidingWindowState {
        let next_end = clamp_i64(self.window_end_at + interval) as i64;
        if now < next_end {
            SlidingWindowState {
                key: self.key,
                hit_count: 0,
                hit_count_for_last_window: self.hit_count,
                interval,
                window_end_at: next_end,
            }
        } else {
            fresh_sliding_state(self.key, interval, now)
        }
    }

    pub fn new(key: String, interval: i64, now: i64) -> (r: Self)
        ensures
            r == fresh_sliding_state(key, interval, now),
    {
        SlidingWindowState {
            key,
            hit_count: 0,
            hit_count_for_last_window: 0,
            interval,
            window_end_at: saturate_i64(now as i128 + interval as i128),
        }
    }

    pub fn create_from_previous_window(window: &Self, interval: i64, now: i64) -> (r: Self)
        ensures
            r == window.rolled(interval, now),
    {
        let mut new = Self::new(window.key.clone(), interval, now);
        let window_end_at = saturate_i64(window.window_end_at as i128 + interval as i128);
        if now < window_end_at {
            new.hit_count_for_last_window = window.hit_count;
            new.window_end_at = window_end_at;
        }
        new
    }

    /// Milliseconds from `now` until the state may be dropped: the end of the
    /// window after the current one.
    pub fn get_expiration_time(&self, now: i64) -> (r: i64)
        ensures
            r == clamp_i64(self.window_end_at + self.interval - now),
    {
        saturate_i64(self.window_end_at as i128 + self.interval as i128 - now as i128)
    }

    pub fn is_expired(&self, now: i64) -> (r: bool)
        ensures
            r == self.is_expired_at(now),
    {
        now > self.window_end_at
    }

    /// Counts `hits` (one if not given) in the current window.
    pub fn add(&mut self, hits: Option<usize>)
        ensures
            *final(self) == old(self).added(
                match hits {
                    Some(h) => h,
                    None => 1usize,
                },
            ),
    {
        let hits = match hits {
            Some(h) => h,
            None => 1,
        };
        if self.hit_count > usize::MAX - hits {
            self.hit_count = usize::MAX;
        } else {
            self.hit_count = self.hit_count + hits;
        }
    }

    fn remaining(&self, now: i64) -> (r: u128)
        ensures
            r == self.remaining_at(now),
            r <= i64::MAX,
    {
        if self.interval <= 0 {
            return 0;
        }
        let passed = now as i128 - (self.window_end_at as i128 - self.interval as i128);
        let elapsed = if passed < 0 {
            0
        } else if passed > self.interval as i128 {
            self.interval as i128
        } else {
            passed
        };
        (self.interval as i128 - elapsed) as u128
    }

    fn carried(&self, now: i64) -> (r: u128)
        ensures
            r == self.carried_at(now),
            r <= self.hit_count_for_last_window,
    {
        if self.interval <= 0 {
            return 0;
        }
        let prev = self.hit_count_for_last_window as u128;
        let rem = self.remaining(now);
        let interval = self.interval as u128;
        assert(prev * rem <= prev * interval) by (nonlinear_arith)
            requires
                rem <= interval,
                prev >= 0,
        ;
        assert(prev * interval <= 0xffff_ffff_ffff_ffffu128 * 0x7fff_ffff_ffff_ffffu128)
            by (nonlinear_arith)
            requires
                prev <= 0xffff_ffff_ffff_ffffu128,
                interval <= 0x7fff_ffff_ffff_ffffu128,
        ;
        let r = prev * rem / interval;
        assert(r <= prev) by (nonlinear_arith)
            requires
                r as int == (prev as int * rem as int) / (interval as int),
                prev * rem <= prev * interval,
                interval > 0,
        ;
        r
    }

    /// The sliding hit count at `now`: the current window's hits plus the
    /// previous window's, weighted by the share of the current window still ahead.
    pub fn get_hit_count(&self, now: i64) -> (r: usize)
        ensures
            r == self.hits_at(now),
    {
        let total = self.hit_count as u128 + self.carried(now);
        if total > usize::MAX as u128 {
            usize::MAX
        } else {
            total as usize
        }
    }

    fn available_for(&self, max_size: usize, now: i64) -> (r: Option<usize>)
        ensures
            r == self.available_at(max_size, now),
    {
        let hits = self.get_hit_count(now);
        if hits > max_size {
            None
        } else {
            Some(max_size - hits)
        }
    }

    /// Milliseconds until `tokens` can be had under `max_size`: none if they are
    /// there now; else, if the decay of the previous window releases enough
    /// before the window ends, the matching share of the remaining window; else
    /// the time to the window's end plus a per-token delay for the rest.
    pub fn calculate_time_for_tokens(&self, max_size: usize, tokens: usize, now: i64) -> (r: i64)
        ensures
            r == self.wait_at(max_size, tokens, now),
    {
        let available = self.available_for(max_size, now);
        if covers_exec(available, tokens) {
            return 0;
        }
        let needed = (tokens - or_zero_exec(available)) as u128;
        let carried = self.carried(now);
        let releasable: i128 = if (max_size as i128) - (carried as i128) < 1 {
            1
        } else {
            (max_size as i128) - (carried as i128)
        };
        if releasable >= needed as i128 {
            let rem = self.remaining(now);
            assert(needed * rem <= 0xffff_ffff_ffff_ffffu128 * 0x7fff_ffff_ffff_ffffu128)
                by (nonlinear_arith)
                requires
                    needed <= 0xffff_ffff_ffff_ffffu128,
                    rem <= 0x7fff_ffff_ffff_ffffu128,
            ;
            let w = needed * rem / (releasable as u128);
            assert(w <= needed * rem) by (nonlinear_arith)
                requires
                    w as int == (needed as int * rem as int) / (releasable as int),
                    releasable >= 1,
            ;
            saturate_i64(w as i128)
        } else {
            let step: i128 = if self.interval > 0 && max_size > 0 {
                (self.interval as u128 / max_size as u128) as i128
            } else {
                0
            };
            assert(step <= 0x7fff_ffff_ffff_ffff) by (nonlinear_arith)
                requires
                    step == 0 || (step == self.interval as u128 / max_size as u128 && max_size > 0 && self.interval > 0),
            ;
            let short = needed as i128 - releasable;
            assert(short * step <= 0xffff_ffff_ffff_ffffi128 * 0x7fff_ffff_ffff_ffffi128)
                by (nonlinear_arith)
                requires
                    0 <= short <= 0xffff_ffff_ffff_ffffi128,
                    0 <= step <= 0x7fff_ffff_ffff_ffffi128,
            ;
            assert(short * step >= 0) by (nonlinear_arith)
                requires
                    0 <= short,
                    0 <= step,
            ;
            saturate_i64((self.window_end_at as i128 - now as i128) + short * step)
        }
    }
}

impl State for SlidingWindowState {
    open spec fn id(&self) -> Seq<char> {
        self.key@
    }

    fn get_id(&self) -> (r: String) {
        self.key.clone()
    }

    /// The window's length, or zero for a negative one.
    open spec fn expiration(&self) -> usize {
        if self.interval < 0 {
            0
        } else {
            self.interval as usize
        }
    }

    fn get_expiration_time(&self) -> (r: usize) {
        if self.interval < 0 {
            0
        } else {
            self.interval as usize
        }
    }

    fn copy_state(&self) -> (r: Self) {
        SlidingWindowState {
            key: self.key.clone(),
            hit_count: self.hit_count,
            hit_count_for_last_window: self.hit_count_for_last_window,
            interval: self.interval,
            window_end_at: self.window_end_at,
        }
    }
}

/// The state that a key starts with at `now`: an empty window ending one interval later.
pub open spec fn fresh_sliding_state(key: String, interval: i64, now: i64) -> SlidingWindowState {
    SlidingWindowState {
        key,
        hit_count: 0,
        hit_count_for_last_window: 0,
        interval,
        window_end_at: clamp_i64(now + interval) as i64,
    }
}

/// The state of `key` as a reservation at `now` finds it: fetched or fresh,
/// then rolled forward if its window has ended.
pub open spec fn sliding_current(
    stored: Map<Seq<char>, SlidingWindowState>,
    key: String,
    interval: i64,
    now: i64,
) -> SlidingWindowState {
    let found = if stored.contains_key(key@) {
        stored[key@]
    } else {
        fresh_sliding_state(key, interval, now)
    };
    if found.is_expired_at(now) {
        found.rolled(interval, now)
    } else {
        found
    }
}

/// What a sliding-window reservation at `now` returns, and the stored states after it.
pub open spec fn sliding_reserve(
    stored: Map<Seq<char>, SlidingWindowState>,
    key: String,
    limit: usize,
    interval: i64,
    tokens: usize,
    max_time: Option<i64>,
    now: i64,
) -> (Result<Reservation, ReserveError>, Map<Seq<char>, SlidingWindowState>) {
    if tokens > limit {
        (Err(ReserveError::TooManyTokensError { requested: tokens, max: limit }), stored)
    } else {
        let state = sliding_current(stored, key, interval, now);
        let available = state.available_at(limit, now);
        if tokens == 0 {
            let retry = if or_zero(available) > 0 {
                now
            } else {
                clamp_i64(now + state.wait_at(limit, 1, now)) as i64
            };
            (
                Ok(
                    Reservation {
                        time_to_act: now,
                        rate_limit: RateLimit {
                            available_tokens: or_zero(available),
                            retry_after: retry,
                            accepted: true,
                            limit,
                        },
                    },
                ),
                stored,
            )
        } else if covers(available, tokens) {
            let next = state.added(tokens);
            (
                Ok(
                    Reservation {
                        time_to_act: now,
                        rate_limit: RateLimit {
                            available_tokens: or_zero(next.available_at(limit, now)),
                            retry_after: now,
                            accepted: true,
                            limit,
                        },
                    },
                ),
                stored.insert(key@, next),
            )
        } else {
            let wait = state.wait_at(limit, tokens, now);
            if exceeds_max_wait(wait, max_time) {
                (Err(ReserveError::MaxWaitDurationExceededError), stored)
            } else {
                let next = state.added(tokens);
                let retry = clamp_i64(now + wait) as i64;
                (
                    Ok(
                        Reservation {
                            time_to_act: retry,
                            rate_limit: RateLimit {
                                available_tokens: or_zero(next.available_at(limit, now)),
                                retry_after: retry,
                                accepted: false,
                                limit,
                            },
                        },
                    ),
                    stored.insert(key@, next),
                )
            }
        }
    }
}

/// The sliding-window policy: the current window's hits plus a linearly
/// decaying share of the previous window's.
pub struct SlidingWindowPolicy<'a, Store: Storage<SlidingWindowState>> {
    limit: usize,
    key: String,
    interval: i64,
    storage: &'a mut Store,
}

impl<'a, Store: Storage<SlidingWindowState>> SlidingWindowPolicy<'a, Store> {
    pub closed spec fn limit(&self) -> usize {
        self.limit
    }

    pub closed spec fn key(&self) -> String {
        self.key
    }

    pub closed spec fn interval(&self) -> i64 {
        self.interval
    }

    pub closed spec fn storage(&self) -> Store {
        *self.storage
    }

    /// A policy of `limit` tokens per `interval` milliseconds for `key`.
    pub fn new(limit: usize, key: String, interval: i64, storage: &'a mut Store) -> (r: Result<
        Self,
        PolicyError,
    >)
        ensures
            limit == 0 ==> r == Err::<Self, PolicyError>(PolicyError::ZeroLimitError),
            limit > 0 && key@.len() == 0 ==> r == Err::<Self, PolicyError>(
                PolicyError::EmptyKeyError,
            ),
            limit > 0 && key@.len() > 0 ==> r is Ok,
            r matches Ok(p) ==> p.limit() == limit && p.key() == key && p.interval() == interval
                && p.storage() == *old(storage),
            r is Err ==> *final(storage) == *old(storage),
    {
        if limit == 0 {
            return Err(PolicyError::ZeroLimitError);
        }
        if key.as_str().is_empty() {
            return Err(PolicyError::EmptyKeyError);
        }
        Ok(SlidingWindowPolicy { limit, key, interval, storage })
    }

    /// Tokens left under the limit for a sliding hit count.
    fn get_available_tokens(&self, hit_count: usize) -> (r: Option<usize>)
        ensures
            r == (if hit_count > self.limit {
                None::<usize>
            } else {
                Some((self.limit - hit_count) as usize)
            }),
    {
        if hit_count > self.limit {
            return None;
        }
        Some(self.limit - hit_count)
    }

    /// Reserves `tokens` at time `now`, waiting at most `max_time` milliseconds if given.
    ///
    /// The key's state is fetched (or started fresh) and rolled forward if its
    /// window has ended. A probe (zero tokens) stores nothing and reports the
    /// available tokens, with `retry_after` now if any token is left, else when
    /// one will be. A request that fits is counted and accepted now. One that
    /// does not is counted and deferred by the computed wait, unless that wait
    /// exceeds `max_time`, in which case nothing is stored.
    pub fn reserve_at(&mut self, tokens: usize, max_time: Option<i64>, now: i64) -> (r: Result<
        Reservation,
        ReserveError,
    >)
        requires
            old(self).storage().well_formed(),
        ensures
            final(self).storage().well_formed(),
            final(self).limit() == old(self).limit(),
            final(self).key() == old(self).key(),
            final(self).interval() == old(self).interval(),
            (r, final(self).storage().stored()) == sliding_reserve(
                old(self).storage().stored(),
                old(self).key(),
                old(self).limit(),
                old(self).interval(),
                tokens,
                max_time,
                now,
            ),
    {
        if tokens > self.limit {
            return Err(ReserveError::TooManyTokensError { requested: tokens, max: self.limit });
        }
        let fetched = self.storage.fetch(self.key.as_str());
        let mut state = match fetched {
            Some(s) => s,
            None => SlidingWindowState::new(self.key.clone(), self.interval, now),
        };
        if state.is_expired(now) {
            state = SlidingWindowState::create_from_previous_window(&state, self.interval, now);
        }
        let available = self.get_available_tokens(state.get_hit_count(now));
        let reservation = if tokens == 0 {
            let remaining = or_zero_exec(available);
            let retry = if remaining > 0 {
                now
            } else {
                let wait = state.calculate_time_for_tokens(self.limit, 1, now);
                saturate_i64(now as i128 + wait as i128)
            };
            Reservation {
                time_to_act: now,
                rate_limit: RateLimit {
                    available_tokens: remaining,
                    retry_after: retry,
                    accepted: true,
                    limit: self.limit,
                },
            }
        } else if covers_exec(available, tokens) {
            state.add(Some(tokens));
            Reservation {
                time_to_act: now,
                rate_limit: RateLimit {
                    available_tokens: or_zero_exec(
                        self.get_available_tokens(state.get_hit_count(now)),
                    ),
                    retry_after: now,
                    accepted: true,
                    limit: self.limit,
                },
            }
        } else {
            let wait = state.calculate_time_for_tokens(self.limit, tokens, now);
            if let Some(m) = max_time {
                if wait > m {
                    return Err(ReserveError::MaxWaitDurationExceededError);
                }
            }
            state.add(Some(tokens));
            let retry = saturate_i64(now as i128 + wait as i128);
            Reservation {
                time_to_act: retry,
                rate_limit: RateLimit {
                    available_tokens: or_zero_exec(
                        self.get_available_tokens(state.get_hit_count(now)),
                    ),
                    retry_after: retry,
                    accepted: false,
                    limit: self.limit,
                },
            }
        };
        if tokens > 0 {
            self.storage.save(self.key.clone(), state);
        }
        Ok(reservation)
    }
}

impl<'a, Store: Storage<SlidingWindowState>> Policy for SlidingWindowPolicy<'a, Store> {
    open spec fn inv(&self) -> bool {
        &&& self.limit() > 0
        &&& self.storage().well_formed()
    }

    open spec fn step(
        &self,
        tokens: usize,
        max_time: Option<i64>,
        now: i64,
        r: Result<Reservation, ReserveError>,
        next: Self,
    ) -> bool {
        &&& next.limit() == self.limit()
        &&& next.key() == self.key()
        &&& next.interval() == self.interval()
        &&& (r, next.storage().stored()) == sliding_reserve(
            self.storage().stored(),
            self.key(),
            self.limit(),
            self.interval(),
            tokens,
            max_time,
            now,
        )
    }

    fn reserve(&mut self, tokens: usize, max_time: Option<i64>) -> (r: Result<
        Reservation,
        ReserveError,
    >) {
        let now = now_millis();
        let r = self.reserve_at(tokens, max_time, now);
        assert(old(self).step(tokens, max_time, now, r, *self));
        r
    }

    fn consume(&mut self, tokens: usize) -> (r: Result<Reservation, ReserveError>) {
        self.reserve(tokens, None)
    }
}

} // verus!
