use vstd::prelude::*;

use crate::clock::clamp_i64;
use crate::error::ReserveError;
use crate::policy::{
    exceeds_max_wait, fixed_reserve, sliding_reserve, FixedWindowState, SlidingWindowState,
};
use crate::{RateLimit, Reservation};

verus! {

/// A request for more tokens than the limit fails with `TooManyTokensError`,
/// naming the request and the limit, and leaves every stored state as it was,
/// under both algorithms.
pub proof fn too_many_tokens_never_touch_storage(
    fixed_stored: Map<Seq<char>, FixedWindowState>,
    sliding_stored: Map<Seq<char>, SlidingWindowState>,
    key: String,
    limit: usize,
    interval: i64,
    tokens: usize,
    max_time: Option<i64>,
    now: i64,
)
    requires
        tokens > limit,
    ensures
        fixed_reserve(fixed_stored, key, limit, interval, tokens, max_time, now) == (Err::<
            Reservation,
            ReserveError,
        >(ReserveError::TooManyTokensError { requested: tokens, max: limit }), fixed_stored),
        sliding_reserve(sliding_stored, key, limit, interval, tokens, max_time, now) == (Err::<
            Reservation,
            ReserveError,
        >(ReserveError::TooManyTokensError { requested: tokens, max: limit }), sliding_stored),
{
}

/// Every failed reservation, `MaxWaitDurationExceededError` included, leaves
/// the stored states exactly as they were, under both algorithms.
pub proof fn failed_reservation_keeps_storage(
    fixed_stored: Map<Seq<char>, FixedWindowState>,
    sliding_stored: Map<Seq<char>, SlidingWindowState>,
    key: String,
    limit: usize,
    interval: i64,
    tokens: usize,
    max_time: Option<i64>,
    now: i64,
)
    ensures
        fixed_reserve(fixed_stored, key, limit, interval, tokens, max_time, now).0 is Err
            ==> fixed_reserve(fixed_stored, key, limit, interval, tokens, max_time, now).1
            == fixed_stored,
        sliding_reserve(sliding_stored, key, limit, interval, tokens, max_time, now).0 is Err
            ==> sliding_reserve(sliding_stored, key, limit, interval, tokens, max_time, now).1
            == sliding_stored,
{
}

/// A probe (a request for zero tokens) never changes the stored states, so a
/// second probe at the same instant reports exactly what the first did, under
/// both algorithms.
pub proof fn probe_is_idempotent(
    fixed_stored: Map<Seq<char>, FixedWindowState>,
    sliding_stored: Map<Seq<char>, SlidingWindowState>,
    key: String,
    limit: usize,
    interval: i64,
    max_time: Option<i64>,
    other_max_time: Option<i64>,
    now: i64,
)
    ensures
        fixed_reserve(fixed_stored, key, limit, interval, 0, max_time, now).1 == fixed_stored,
        fixed_reserve(
            fixed_reserve(fixed_stored, key, limit, interval, 0, max_time, now).1,
            key,
            limit,
            interval,
            0,
            other_max_time,
            now,
        ).0 == fixed_reserve(fixed_stored, key, limit, interval, 0, max_time, now).0,
        sliding_reserve(sliding_stored, key, limit, interval, 0, max_time, now).1
            == sliding_stored,
        sliding_reserve(
            sliding_reserve(sliding_stored, key, limit, interval, 0, max_time, now).1,
            key,
            limit,
            interval,
            0,
            other_max_time,
            now,
        ).0 == sliding_reserve(sliding_stored, key, limit, interval, 0, max_time, now).0,
{
}

/// The stored states after single-token consumes of the fixed-window policy,
/// one at each of `times`, in order.
pub open spec fn fixed_consumed(
    stored: Map<Seq<char>, FixedWindowState>,
    key: String,
    limit: usize,
    interval: i64,
    times: Seq<i64>,
) -> Map<Seq<char>, FixedWindowState>
    decreases times.len(),
{
    if times.len() == 0 {
        stored
    } else {
        fixed_reserve(
            fixed_consumed(stored, key, limit, interval, times.drop_last()),
            key,
            limit,
            interval,
            1,
            None,
            times.last(),
        ).1
    }
}

proof fn fixed_consumed_state(
    stored: Map<Seq<char>, FixedWindowState>,
    key: String,
    limit: usize,
    interval: i64,
    times: Seq<i64>,
)
    requires
        !stored.contains_key(key@),
        0 < limit < usize::MAX,
        interval > 0,
        1 <= times.len() <= limit + 1,
        times[0] > interval,
        forall|i: int| 0 <= i < times.len() ==> times[0] <= #[trigger] times[i] <= times[0] + interval,
    ensures
        fixed_consumed(stored, key, limit, interval, times).contains_key(key@),
        fixed_consumed(stored, key, limit, interval, times)[key@].timer == times[0],
        fixed_consumed(stored, key, limit, interval, times)[key@].hit_count == times.len(),
        fixed_consumed(stored, key, limit, interval, times)[key@].max_size == limit,
        fixed_consumed(stored, key, limit, interval, times)[key@].interval == interval,
    decreases times.len(),
{
    let before = fixed_consumed(stored, key, limit, interval, times.drop_last());
    assert(fixed_consumed(stored, key, limit, interval, times) == fixed_reserve(
        before,
        key,
        limit,
        interval,
        1,
        None,
        times.last(),
    ).1);
    assert(times.last() == times[times.len() - 1]);
    assert(times[0] <= times[times.len() - 1] <= times[0] + interval);
    if times.len() > 1 {
        let rest = times.drop_last();
        assert(rest[0] == times[0]);
        assert forall|i: int| 0 <= i < rest.len() implies rest[0] <= #[trigger] rest[i] <= rest[0]
            + interval by {
            assert(rest[i] == times[i]);
        }
        fixed_consumed_state(stored, key, limit, interval, rest);
    } else {
        assert(before == stored);
    }
}

/// Under the fixed-window policy, from a key without state, with `limit + 1`
/// single-token consumes at `times`, all before one interval has passed since
/// the first: the first `limit` are accepted at once, counting the available
/// tokens down to zero; the next is deferred to exactly one interval after the
/// first, or refused when that wait exceeds `max_time`; and once that moment
/// has passed, a consume is accepted at once.
pub proof fn fixed_window_fills_then_resets(
    stored: Map<Seq<char>, FixedWindowState>,
    key: String,
    limit: usize,
    interval: i64,
    times: Seq<i64>,
    max_time: Option<i64>,
    later: i64,
)
    requires
        !stored.contains_key(key@),
        0 < limit < usize::MAX,
        interval > 0,
        times.len() == limit + 1,
        times[0] > interval,
        times[0] + interval <= i64::MAX,
        forall|i: int| 0 <= i < times.len() ==> times[0] <= #[trigger] times[i] < times[0] + interval,
        later > times[0] + interval,
    ensures
        forall|n: int|
            0 <= n < limit ==> (#[trigger] fixed_reserve(
                fixed_consumed(stored, key, limit, interval, times.take(n)),
                key,
                limit,
                interval,
                1,
                None,
                times[n],
            ).0) == Ok::<Reservation, ReserveError>(
                Reservation {
                    time_to_act: times[n],
                    rate_limit: RateLimit {
                        available_tokens: (limit - n - 1) as usize,
                        retry_after: times[n],
                        accepted: true,
                        limit,
                    },
                },
            ),
        fixed_reserve(
            fixed_consumed(stored, key, limit, interval, times.take(limit as int)),
            key,
            limit,
            interval,
            1,
            max_time,
            times[limit as int],
        ).0 == (if exceeds_max_wait(times[0] + interval - times[limit as int], max_time) {
            Err::<Reservation, ReserveError>(ReserveError::MaxWaitDurationExceededError)
        } else {
            Ok::<Reservation, ReserveError>(
                Reservation {
                    time_to_act: (times[0] + interval) as i64,
                    rate_limit: RateLimit {
                        available_tokens: 0,
                        retry_after: (times[0] + interval) as i64,
                        accepted: false,
                        limit,
                    },
                },
            )
        }),
        fixed_reserve(
            fixed_consumed(stored, key, limit, interval, times),
            key,
            limit,
            interval,
            1,
            None,
            later,
        ).0 == Ok::<Reservation, ReserveError>(
            Reservation {
                time_to_act: later,
                rate_limit: RateLimit {
                    available_tokens: (limit - 1) as usize,
                    retry_after: later,
                    accepted: true,
                    limit,
                },
            },
        ),
{
    assert forall|n: int| 1 <= n <= limit + 1 implies fixed_consumed(
        stored,
        key,
        limit,
        interval,
        #[trigger] times.take(n),
    ).contains_key(key@) && fixed_consumed(stored, key, limit, interval, times.take(n))[key@].timer
        == times[0] && fixed_consumed(stored, key, limit, interval, times.take(n))[key@].hit_count
        == n && fixed_consumed(stored, key, limit, interval, times.take(n))[key@].max_size
        == limit && fixed_consumed(stored, key, limit, interval, times.take(n))[key@].interval
        == interval by {
        let prefix = times.take(n);
        assert(prefix[0] == times[0]);
        assert forall|i: int| 0 <= i < prefix.len() implies prefix[0] <= #[trigger] prefix[i]
            <= prefix[0] + interval by {
            assert(prefix[i] == times[i]);
        }
        fixed_consumed_state(stored, key, limit, interval, prefix);
    }
    assert(times.take(0) =~= Seq::<i64>::empty());
    assert(fixed_consumed(stored, key, limit, interval, times.take(0)) == stored);
    assert forall|n: int| 0 <= n < limit implies (#[trigger] fixed_reserve(
        fixed_consumed(stored, key, limit, interval, times.take(n)),
        key,
        limit,
        interval,
        1,
        None,
        times[n],
    ).0) == Ok::<Reservation, ReserveError>(
        Reservation {
            time_to_act: times[n],
            rate_limit: RateLimit {
                available_tokens: (limit - n - 1) as usize,
                retry_after: times[n],
                accepted: true,
                limit,
            },
        },
    ) by {
        assert(times[0] <= times[n] < times[0] + interval);
        if n > 0 {
            assert(fixed_consumed(stored, key, limit, interval, times.take(n))[key@].hit_count == n);
        }
    }
    let last = times[limit as int];
    assert(times[0] <= last < times[0] + interval);
    assert(fixed_consumed(stored, key, limit, interval, times.take(limit as int))[key@].hit_count
        == limit);
    assert(times.take(limit + 1) =~= times);
    assert(fixed_consumed(stored, key, limit, interval, times.take(limit + 1))[key@].hit_count
        == limit + 1);
}

/// Under the sliding-window policy, a key whose window took a full burst of
/// `limit` hits cannot take a second full burst at once after that window
/// ended: the decayed share of the first burst still counts. This holds while
/// that share is at least one token, that is while `limit` times the time left
/// in the new window is at least one interval.
pub proof fn sliding_window_blocks_second_burst(
    stored: Map<Seq<char>, SlidingWindowState>,
    key: String,
    limit: usize,
    interval: i64,
    max_time: Option<i64>,
    now: i64,
)
    requires
        stored.contains_key(key@),
        stored[key@].hit_count == limit,
        limit > 0,
        interval > 0,
        stored[key@].window_end_at < now,
        stored[key@].window_end_at + interval <= i64::MAX,
        now < stored[key@].window_end_at + interval,
        limit * (stored[key@].window_end_at + interval - now) >= interval,
    ensures
        match sliding_reserve(stored, key, limit, interval, limit, max_time, now).0 {
            Ok(r) => !r.rate_limit.accepted,
            Err(e) => e == ReserveError::MaxWaitDurationExceededError,
        },
{
    let old_state = stored[key@];
    let state = old_state.rolled(interval, now);
    let end = old_state.window_end_at;
    assert(state.hit_count_for_last_window == limit);
    assert(state.window_end_at == end + interval);
    assert(state.elapsed_at(now) == now - end);
    let rem = state.remaining_at(now);
    assert(rem == end + interval - now);
    let lim = limit as int;
    let iv = interval as int;
    assert(lim * rem / iv >= 1) by (nonlinear_arith)
        requires
            lim * rem >= iv,
            iv > 0,
    ;
    assert(lim * rem / iv <= lim) by (nonlinear_arith)
        requires
            0 <= rem <= iv,
            lim >= 0,
            iv > 0,
    ;
    assert(state.carried_at(now) == lim * rem / iv);
}

/// Under the fixed-window policy, a key whose window already holds `limit`
/// hits defers a further single-token request to the window's reset, or
/// refuses it when that wait exceeds `max_time`, while the window lasts.
pub proof fn fixed_full_window_defers_or_refuses(
    stored: Map<Seq<char>, FixedWindowState>,
    key: String,
    limit: usize,
    interval: i64,
    max_time: Option<i64>,
    now: i64,
)
    requires
        stored.contains_key(key@),
        limit > 0,
        stored[key@].hit_count == limit,
        stored[key@].max_size == limit,
        stored[key@].timer <= now <= stored[key@].timer + stored[key@].interval,
    ensures
        fixed_reserve(stored, key, limit, interval, 1, max_time, now).0 == (if exceeds_max_wait(
            stored[key@].timer + stored[key@].interval - now,
            max_time,
        ) {
            Err::<Reservation, ReserveError>(ReserveError::MaxWaitDurationExceededError)
        } else {
            Ok::<Reservation, ReserveError>(
                Reservation {
                    time_to_act: clamp_i64(stored[key@].timer + stored[key@].interval) as i64,
                    rate_limit: RateLimit {
                        available_tokens: 0,
                        retry_after: clamp_i64(stored[key@].timer + stored[key@].interval) as i64,
                        accepted: false,
                        limit,
                    },
                },
            )
        }),
{
}

/// Under the fixed-window policy, once more than one interval has passed since
/// a key's window started, a request of up to `limit` tokens is accepted at
/// once and starts a new window.
pub proof fn fixed_window_resets_after_wait(
    stored: Map<Seq<char>, FixedWindowState>,
    key: String,
    limit: usize,
    interval: i64,
    tokens: usize,
    max_time: Option<i64>,
    now: i64,
)
    requires
        stored.contains_key(key@),
        stored[key@].max_size == limit,
        now - stored[key@].timer > stored[key@].interval,
        stored[key@].interval >= 0,
        1 <= tokens <= limit,
    ensures
        fixed_reserve(stored, key, limit, interval, tokens, max_time, now).0 == Ok::<
            Reservation,
            ReserveError,
        >(
            Reservation {
                time_to_act: now,
                rate_limit: RateLimit {
                    available_tokens: (limit - tokens) as usize,
                    retry_after: now,
                    accepted: true,
                    limit,
                },
            },
        ),
        fixed_reserve(stored, key, limit, interval, tokens, max_time, now).1[key@].timer == now,
{
}

/// On a key without state, a request of up to `limit` tokens (a probe
/// included) is accepted at once and leaves `limit - tokens` available, under
/// both algorithms.
pub proof fn fresh_key_admits_up_to_limit(
    fixed_stored: Map<Seq<char>, FixedWindowState>,
    sliding_stored: Map<Seq<char>, SlidingWindowState>,
    key: String,
    limit: usize,
    interval: i64,
    tokens: usize,
    max_time: Option<i64>,
    now: i64,
)
    requires
        !fixed_stored.contains_key(key@),
        !sliding_stored.contains_key(key@),
        limit > 0,
        interval >= 0,
        tokens <= limit,
    ensures
        fixed_reserve(fixed_stored, key, limit, interval, tokens, max_time, now).0 == Ok::<
            Reservation,
            ReserveError,
        >(
            Reservation {
                time_to_act: now,
                rate_limit: RateLimit {
                    available_tokens: (limit - tokens) as usize,
                    retry_after: now,
                    accepted: true,
                    limit,
                },
            },
        ),
        sliding_reserve(sliding_stored, key, limit, interval, tokens, max_time, now).0 == Ok::<
            Reservation,
            ReserveError,
        >(
            Reservation {
                time_to_act: now,
                rate_limit: RateLimit {
                    available_tokens: (limit - tokens) as usize,
                    retry_after: now,
                    accepted: true,
                    limit,
                },
            },
        ),
{
    let state = crate::policy::fresh_sliding_state(key, interval, now);
    assert(state.carried_at(now) == 0) by (nonlinear_arith)
        requires
            state.hit_count_for_last_window == 0,
            state.carried_at(now) == if state.interval <= 0 {
                0
            } else {
                (state.hit_count_for_last_window * state.remaining_at(now)) / (
                state.interval as int)
            },
    ;
}

} // verus!
