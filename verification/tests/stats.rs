use std::sync::Arc;
use std::time::Duration;

use peanutbutter::BudgetingConfig;
use peanutbutter::ProjectStats;
use peanutbutter::Timer;

const SEC: u64 = 1_000_000;

#[test]
fn test_budgeting() {
    let (clock, mock) = quanta::Clock::mock();
    mock.increment(Duration::from_secs(100));
    let timer = Timer::new(clock);

    let config = BudgetingConfig::new(10 * SEC, 5 * SEC, SEC, 20).with_timer(timer.clone());

    let mut stats = ProjectStats::new(Arc::new(config));

    stats.record_spending(40);
    let is_blocked = stats.record_spending(10);
    assert!(!is_blocked);

    mock.increment(Duration::from_millis(1500));

    // 95 spent over an adjusted window of 4.5s is a normalized rate of about
    // 21.1 per second, which strictly exceeds the budget of 20 per second.
    let is_blocked = stats.record_spending(45);
    assert!(is_blocked);

    mock.increment(Duration::from_millis(750));

    let is_blocked = stats.record_spending(20);
    assert!(is_blocked);

    mock.increment(Duration::from_secs(6));

    // The budgeting window itself is already passed, but we are in backoff
    assert!(stats.exceeds_budget());

    mock.increment(Duration::from_secs(3));

    // The budgeting window itself is already passed, but we are in backoff
    assert!(stats.exceeds_budget());

    mock.increment(Duration::from_secs(2));

    // the backoff deadline has passed, we are unblocked
    assert!(!stats.exceeds_budget());

    // after *another* backoff, these stats are stale
    mock.increment(Duration::from_secs(10));
    assert!(stats.is_stale(timer.now()));
}

#[test]
fn test_adjusted_budget() {
    let (clock, mock) = quanta::Clock::mock();
    mock.increment(Duration::from_secs(100));
    let timer = Timer::new(clock);

    let config = BudgetingConfig::new(10 * SEC, 5 * SEC, SEC, 200).with_timer(timer.clone());
    let config = Arc::new(config);

    let mut stats = ProjectStats::new(config.clone());

    // we spend `10` every `100ms`
    for _ in 0..(5 * 10) {
        stats.record_spending(10);
        mock.increment(Duration::from_millis(100));
    }

    for _ in 0..(5 * 10) {
        let now = timer.now();
        let truncated_now = config.truncated_now(now);
        let spent_budget = stats.spent_budget(now, truncated_now);
        // In steady state, 10 spends of 10 per second normalize to exactly
        // 100 per second, independent of where "now" falls in its bucket.
        assert_eq!(spent_budget, 100);

        stats.record_spending(10);
        mock.increment(Duration::from_millis(100));
    }
}

#[test]
fn bucket_accumulates_within_single_bucket() {
    // One bucket of 1s covering the whole 1s window: all three recordings
    // land in the same bucket and add up.
    let config = BudgetingConfig::new(SEC, SEC, SEC, 1000);
    let mut stats = ProjectStats::new(Arc::new(config));
    stats.record_spending_at(0, 10);
    stats.record_spending_at(300_000, 20);
    stats.record_spending_at(999_999, 30);
    // 60 spent over an adjusted window of 999_999 microseconds.
    assert_eq!(stats.spent_budget(999_999, 0), 60);
}

#[test]
fn oldest_bucket_is_evicted_beyond_bucket_count() {
    // window 3s, bucket 1s: three buckets retained.  Recording into a fourth
    // distinct bucket evicts the oldest one.
    let config = BudgetingConfig::new(10 * SEC, 3 * SEC, SEC, 1000);
    let mut stats = ProjectStats::new(Arc::new(config));
    stats.record_spending_at(0, 1);
    stats.record_spending_at(1 * SEC, 2);
    stats.record_spending_at(2 * SEC, 4);
    stats.record_spending_at(3 * SEC, 8);
    // Retained buckets hold 8 + 4 + 2 = 14 (the bucket holding 1 was
    // evicted); 14 over the 3s window rounds down to 4 per second.
    assert_eq!(stats.spent_budget(3 * SEC, 3 * SEC), 4);
}

#[test]
fn debounce_freezes_decision_in_both_directions() {
    // window 1s, bucket 1s, debounce 10s, budget 10/s.
    let config = BudgetingConfig::new(10 * SEC, SEC, SEC, 10);
    let mut stats = ProjectStats::new(Arc::new(config));
    // 100 in the 1s window flips the decision to exceeding.
    assert!(stats.record_spending_at(0, 100));
    // The spend has long fallen out of the window, but the decision is
    // frozen until t = 10s.
    assert!(stats.exceeds_budget_at(5 * SEC));
    // Immediately after the deadline it re-evaluates: window empty, so the
    // decision flips back (arming a new deadline at t = 20s).
    assert!(!stats.exceeds_budget_at(10 * SEC));
    // A huge spend while frozen still reports the frozen decision...
    assert!(!stats.record_spending_at(19_500_000, 1_000_000));
    // ...and counts as soon as the deadline has passed.
    assert!(stats.exceeds_budget_at(20 * SEC));
}

#[test]
fn raising_budget_keeps_not_exceeding() {
    // The same spend history under a larger budget never starts blocking.
    let mut small = ProjectStats::new(Arc::new(BudgetingConfig::new(10 * SEC, 5 * SEC, SEC, 20)));
    let mut large = ProjectStats::new(Arc::new(BudgetingConfig::new(10 * SEC, 5 * SEC, SEC, 100)));
    let recordings: [(u64, u64); 4] = [(0, 30), (500_000, 30), (1_500_000, 20), (4 * SEC, 10)];
    for (at, amount) in recordings {
        let blocked_small = small.record_spending_at(at, amount);
        let blocked_large = large.record_spending_at(at, amount);
        assert!(!blocked_small);
        assert!(!blocked_large);
    }
}
