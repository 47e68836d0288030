use rate_limiter::error::{PolicyError, ReserveError};
use rate_limiter::policy::{
    FixedWindowPolicy, FixedWindowState, Policy, SlidingWindowPolicy, SlidingWindowState,
};
use rate_limiter::storage::{InMemoryStorage, Storage};

fn fixed_snapshot(storage: &InMemoryStorage<FixedWindowState>, key: &str) -> Option<(usize, i64)> {
    storage.fetch(key).map(|s| (s.hit_count, s.timer))
}

fn sliding_snapshot(
    storage: &InMemoryStorage<SlidingWindowState>,
    key: &str,
) -> Option<(usize, usize, i64)> {
    storage
        .fetch(key)
        .map(|s| (s.hit_count, s.hit_count_for_last_window, s.window_end_at))
}

#[test]
fn abs() {}

#[test]
fn fixed_window_five_per_second() {
    let mut storage = InMemoryStorage::new();
    let mut policy = FixedWindowPolicy::new(5, "user".to_string(), 1000, &mut storage).unwrap();
    for expected in [4usize, 3, 2, 1, 0] {
        let r = policy.reserve_at(1, None, 0).unwrap();
        assert!(r.get_rate_limit().is_accepted());
        assert_eq!(r.get_rate_limit().get_remaining_tokens(), expected);
        assert_eq!(r.get_rate_limit().get_retry_after(), 0);
    }
    let sixth = policy.reserve_at(1, None, 0).unwrap();
    assert!(!sixth.get_rate_limit().is_accepted());
    assert_eq!(sixth.get_rate_limit().get_retry_after(), 1000);
    assert_eq!(sixth.get_time_to_act(), 1000);
    let later = policy.reserve_at(1, None, 1001).unwrap();
    assert!(later.get_rate_limit().is_accepted());
    assert_eq!(later.get_rate_limit().get_remaining_tokens(), 4);
}

#[test]
fn probe_on_fresh_key_reports_full_capacity() {
    let mut fixed_storage = InMemoryStorage::new();
    let mut fixed = FixedWindowPolicy::new(10, "k".to_string(), 1000, &mut fixed_storage).unwrap();
    let r = fixed.reserve_at(0, None, 5000).unwrap();
    assert_eq!(r.get_rate_limit().get_remaining_tokens(), 10);
    assert!(r.get_rate_limit().is_accepted());
    assert_eq!(r.get_rate_limit().get_retry_after(), 5000);
    assert_eq!(r.get_rate_limit().get_limit(), 10);
    drop(fixed);
    assert!(fixed_snapshot(&fixed_storage, "k").is_none());

    let mut sliding_storage = InMemoryStorage::new();
    let mut sliding =
        SlidingWindowPolicy::new(10, "k".to_string(), 1000, &mut sliding_storage).unwrap();
    let r = sliding.reserve_at(0, None, 5000).unwrap();
    assert_eq!(r.get_rate_limit().get_remaining_tokens(), 10);
    assert!(r.get_rate_limit().is_accepted());
    assert_eq!(r.get_rate_limit().get_retry_after(), 5000);
    drop(sliding);
    assert!(sliding_snapshot(&sliding_storage, "k").is_none());
}

#[test]
fn construction_checks_limit_then_key() {
    let mut fs: InMemoryStorage<FixedWindowState> = InMemoryStorage::new();
    assert_eq!(
        FixedWindowPolicy::new(0, "k".to_string(), 1000, &mut fs).err(),
        Some(PolicyError::ZeroLimitError)
    );
    assert_eq!(
        FixedWindowPolicy::new(0, String::new(), 1000, &mut fs).err(),
        Some(PolicyError::ZeroLimitError)
    );
    assert_eq!(
        FixedWindowPolicy::new(3, String::new(), 1000, &mut fs).err(),
        Some(PolicyError::EmptyKeyError)
    );
    assert!(FixedWindowPolicy::new(3, "k".to_string(), 1000, &mut fs).is_ok());

    let mut ss: InMemoryStorage<SlidingWindowState> = InMemoryStorage::new();
    assert_eq!(
        SlidingWindowPolicy::new(0, "k".to_string(), 1000, &mut ss).err(),
        Some(PolicyError::ZeroLimitError)
    );
    assert_eq!(
        SlidingWindowPolicy::new(3, String::new(), 1000, &mut ss).err(),
        Some(PolicyError::EmptyKeyError)
    );
    assert!(SlidingWindowPolicy::new(3, "k".to_string(), 1000, &mut ss).is_ok());
}

#[test]
fn too_many_tokens_is_refused_without_storage_access() {
    let mut fs = InMemoryStorage::new();
    let mut fixed = FixedWindowPolicy::new(10, "k".to_string(), 1000, &mut fs).unwrap();
    assert_eq!(
        fixed.reserve_at(11, None, 0).err(),
        Some(ReserveError::TooManyTokensError { requested: 11, max: 10 })
    );
    assert_eq!(
        fixed.consume(12).err(),
        Some(ReserveError::TooManyTokensError { requested: 12, max: 10 })
    );
    drop(fixed);
    assert!(fixed_snapshot(&fs, "k").is_none());

    let mut ss = InMemoryStorage::new();
    let mut sliding = SlidingWindowPolicy::new(10, "k".to_string(), 1000, &mut ss).unwrap();
    assert_eq!(
        sliding.reserve_at(11, Some(5), 0).err(),
        Some(ReserveError::TooManyTokensError { requested: 11, max: 10 })
    );
    drop(sliding);
    assert!(sliding_snapshot(&ss, "k").is_none());
}

#[test]
fn repeated_probes_change_nothing() {
    let mut fs = InMemoryStorage::new();
    let mut fixed = FixedWindowPolicy::new(4, "k".to_string(), 1000, &mut fs).unwrap();
    fixed.reserve_at(3, None, 100).unwrap();
    let first = fixed.reserve_at(0, None, 200).unwrap();
    let second = fixed.reserve_at(0, Some(0), 200).unwrap();
    assert_eq!(first, second);
    assert_eq!(first.get_rate_limit().get_remaining_tokens(), 1);
    drop(fixed);
    assert_eq!(fixed_snapshot(&fs, "k"), Some((3, 0)));

    let mut ss = InMemoryStorage::new();
    let mut sliding = SlidingWindowPolicy::new(4, "k".to_string(), 1000, &mut ss).unwrap();
    sliding.reserve_at(3, None, 100).unwrap();
    let first = sliding.reserve_at(0, None, 200).unwrap();
    let second = sliding.reserve_at(0, None, 200).unwrap();
    assert_eq!(first, second);
    assert_eq!(first.get_rate_limit().get_remaining_tokens(), 1);
    drop(sliding);
    assert_eq!(sliding_snapshot(&ss, "k"), Some((3, 0, 1100)));
}

#[test]
fn max_wait_exceeded_leaves_state_unchanged() {
    let mut fs = InMemoryStorage::new();
    let mut fixed = FixedWindowPolicy::new(2, "k".to_string(), 1000, &mut fs).unwrap();
    fixed.reserve_at(2, None, 0).unwrap();
    assert_eq!(
        fixed.reserve_at(1, Some(10), 0).err(),
        Some(ReserveError::MaxWaitDurationExceededError)
    );
    drop(fixed);
    assert_eq!(fixed_snapshot(&fs, "k"), Some((2, 0)));

    let mut ss = InMemoryStorage::new();
    let mut sliding = SlidingWindowPolicy::new(2, "k".to_string(), 1000, &mut ss).unwrap();
    sliding.reserve_at(2, None, 0).unwrap();
    assert_eq!(
        sliding.reserve_at(1, Some(10), 0).err(),
        Some(ReserveError::MaxWaitDurationExceededError)
    );
    drop(sliding);
    assert_eq!(sliding_snapshot(&ss, "k"), Some((2, 0, 1000)));
}

#[test]
fn deferred_request_within_max_wait_is_committed() {
    let mut fs = InMemoryStorage::new();
    let mut fixed = FixedWindowPolicy::new(2, "k".to_string(), 1000, &mut fs).unwrap();
    fixed.reserve_at(2, None, 0).unwrap();
    let r = fixed.reserve_at(1, Some(900), 400).unwrap();
    assert!(!r.get_rate_limit().is_accepted());
    assert_eq!(r.get_rate_limit().get_retry_after(), 1000);
    assert_eq!(r.get_rate_limit().get_remaining_tokens(), 0);
    drop(fixed);
    assert_eq!(fixed_snapshot(&fs, "k"), Some((3, 0)));
}

#[test]
fn sliding_window_second_burst_is_not_fully_admitted() {
    let mut ss = InMemoryStorage::new();
    let mut sliding = SlidingWindowPolicy::new(10, "k".to_string(), 1000, &mut ss).unwrap();
    sliding.reserve_at(0, None, 0).unwrap();
    let probe_state = sliding.reserve_at(1, None, 0).unwrap();
    assert!(probe_state.get_rate_limit().is_accepted());
    let burst = sliding.reserve_at(9, None, 999).unwrap();
    assert!(burst.get_rate_limit().is_accepted());
    assert_eq!(burst.get_rate_limit().get_remaining_tokens(), 0);
    let second = sliding.reserve_at(10, None, 1001).unwrap();
    assert!(!second.get_rate_limit().is_accepted());
    assert_eq!(second.get_rate_limit().get_retry_after(), 2800);
    drop(sliding);
    assert_eq!(sliding_snapshot(&ss, "k"), Some((10, 10, 2000)));

    let mut fs = InMemoryStorage::new();
    let mut fixed = FixedWindowPolicy::new(10, "k".to_string(), 1000, &mut fs).unwrap();
    assert!(fixed.reserve_at(10, None, 999).unwrap().get_rate_limit().is_accepted());
    assert!(fixed.reserve_at(10, None, 1001).unwrap().get_rate_limit().is_accepted());
}

#[test]
fn sliding_probe_on_exhausted_key_points_at_next_token() {
    let mut ss = InMemoryStorage::new();
    let mut sliding = SlidingWindowPolicy::new(10, "k".to_string(), 1000, &mut ss).unwrap();
    sliding.reserve_at(10, None, 0).unwrap();
    let probe = sliding.reserve_at(0, None, 500).unwrap();
    assert!(probe.get_rate_limit().is_accepted());
    assert_eq!(probe.get_rate_limit().get_remaining_tokens(), 0);
    assert_eq!(probe.get_time_to_act(), 500);
    // one token short, ten releasable over the 500 ms left in the window
    assert_eq!(probe.get_rate_limit().get_retry_after(), 550);
}

#[test]
fn consume_uses_the_wall_clock() {
    let mut fs = InMemoryStorage::new();
    let mut fixed = FixedWindowPolicy::new(3, "k".to_string(), 60_000, &mut fs).unwrap();
    let r = fixed.consume(1).unwrap();
    assert!(r.get_rate_limit().is_accepted());
    assert!(r.get_time_to_act() > 1_600_000_000_000);
    assert_eq!(r.get_rate_limit().get_remaining_tokens(), 2);

    let mut ss = InMemoryStorage::new();
    let mut sliding = SlidingWindowPolicy::new(3, "k".to_string(), 60_000, &mut ss).unwrap();
    let r = sliding.reserve(2, Some(0)).unwrap();
    assert!(r.get_rate_limit().is_accepted());
    assert!(r.get_time_to_act() > 1_600_000_000_000);
    assert_eq!(r.get_rate_limit().get_remaining_tokens(), 1);
}

#[test]
fn fixed_probe_on_overfilled_window_acts_now() {
    let mut fs = InMemoryStorage::new();
    let mut fixed = FixedWindowPolicy::new(5, "k".to_string(), 1000, &mut fs).unwrap();
    fixed.reserve_at(5, None, 0).unwrap();
    let deferred = fixed.reserve_at(1, None, 0).unwrap();
    assert!(!deferred.get_rate_limit().is_accepted());
    let probe = fixed.reserve_at(0, None, 200).unwrap();
    assert!(probe.get_rate_limit().is_accepted());
    assert_eq!(probe.get_time_to_act(), 200);
    assert_eq!(probe.get_rate_limit().get_remaining_tokens(), 0);
    assert_eq!(probe.get_rate_limit().get_retry_after(), 1000);
}

#[test]
fn fresh_key_admits_any_request_up_to_limit() {
    for tokens in 1..=10usize {
        let mut fs = InMemoryStorage::new();
        let mut fixed = FixedWindowPolicy::new(10, "k".to_string(), 1000, &mut fs).unwrap();
        let r = fixed.reserve_at(tokens, None, 4242).unwrap();
        assert!(r.get_rate_limit().is_accepted());
        assert_eq!(r.get_rate_limit().get_remaining_tokens(), 10 - tokens);
        assert_eq!(r.get_rate_limit().get_retry_after(), 4242);

        let mut ss = InMemoryStorage::new();
        let mut sliding = SlidingWindowPolicy::new(10, "k".to_string(), 1000, &mut ss).unwrap();
        let r = sliding.reserve_at(tokens, None, 4242).unwrap();
        assert!(r.get_rate_limit().is_accepted());
        assert_eq!(r.get_rate_limit().get_remaining_tokens(), 10 - tokens);
        assert_eq!(r.get_rate_limit().get_retry_after(), 4242);
    }
}

#[test]
fn full_fixed_window_refuses_short_wait_then_resets() {
    let mut fs = InMemoryStorage::new();
    let mut fixed = FixedWindowPolicy::new(3, "k".to_string(), 1000, &mut fs).unwrap();
    fixed.reserve_at(3, None, 5000).unwrap();
    assert_eq!(
        fixed.reserve_at(1, Some(199), 5800).err(),
        Some(ReserveError::MaxWaitDurationExceededError)
    );
    let deferred = fixed.reserve_at(1, Some(200), 5800).unwrap();
    assert!(!deferred.get_rate_limit().is_accepted());
    assert_eq!(deferred.get_rate_limit().get_retry_after(), 6000);
    assert_eq!(deferred.get_time_to_act(), 6000);
    let after = fixed.reserve_at(2, None, 6001).unwrap();
    assert!(after.get_rate_limit().is_accepted());
    assert_eq!(after.get_rate_limit().get_remaining_tokens(), 1);
    drop(fixed);
    assert_eq!(fixed_snapshot(&fs, "k"), Some((2, 6001)));
}
