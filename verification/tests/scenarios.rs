use std::sync::Arc;

use peanutbutter::BudgetingConfig;
use peanutbutter::ProjectStats;

const SEC: u64 = 1_000_000;

#[test]
fn scenario_debounce_flow() {
    // window 5s, bucket 1s, debounce 10s; a budget of 22/s sits between the
    // normalized rate after the third recording (95 / 4.5s ~ 21.1/s) and the
    // one after the fourth (105 / 4.25s ~ 24.7/s), so the decision flips at
    // t = 2.25s and the debounce holds it until t = 12.25s.
    let config = BudgetingConfig::new(10 * SEC, 5 * SEC, SEC, 22);
    let mut stats = ProjectStats::new(Arc::new(config));

    assert!(!stats.record_spending_at(0, 40));
    assert!(!stats.record_spending_at(0, 10));
    assert!(!stats.record_spending_at(1_500_000, 45));
    assert!(stats.record_spending_at(2_250_000, 10));
    // The window has fully elapsed, but the debounce armed at t = 2.25s
    // holds the decision until t = 12.25s.
    assert!(stats.exceeds_budget_at(8_250_000));
    assert!(stats.exceeds_budget_at(11_250_000));
    // Past the deadline the window sum is zero: not exceeding any more.
    assert!(!stats.exceeds_budget_at(13_250_000));
}

#[test]
fn scenario_budget_is_a_rate() {
    // The same timeline under a budget of 100/s: the normalized rate peaks
    // at about 24.7/s, so the tenant never exceeds.
    let config = BudgetingConfig::new(10 * SEC, 5 * SEC, SEC, 100);
    let mut stats = ProjectStats::new(Arc::new(config));

    assert!(!stats.record_spending_at(0, 40));
    assert!(!stats.record_spending_at(0, 10));
    assert!(!stats.record_spending_at(1_500_000, 45));
    assert!(!stats.record_spending_at(2_250_000, 10));
    assert!(!stats.exceeds_budget_at(8_250_000));
    assert_eq!(stats.spent_budget(2_250_000, 2 * SEC), 105 * SEC / 4_250_000);
}
