use peanutbutter::BudgetingConfig;
use peanutbutter::Service;

const SEC: u64 = 1_000_000;

fn plain_config(budget: u64) -> BudgetingConfig {
    BudgetingConfig::new(10 * SEC, 5 * SEC, SEC, budget)
}

#[test]
fn unknown_tenant_reports_false_and_creates_no_record() {
    let mut service = Service::new();
    service.add_config("symbolication-native", plain_config(100));
    assert!(service.has_config("symbolication-native"));
    assert!(!service.has_config("symbolication-js"));

    // A query for a tenant never seen creates no record.
    assert!(!service.exceeds_budget_at("symbolication-native", 42, 0));
    assert_eq!(service.project_count(), 0);

    // An unknown configuration name never blocks and records nothing.
    assert!(!service.exceeds_budget_at("symbolication-js", 42, 0));
    assert!(!service.record_spending_at("symbolication-js", 42, 0, 50));
    assert_eq!(service.project_count(), 0);

    // Recording for a known configuration creates the record.
    assert!(!service.record_spending_at("symbolication-native", 42, 0, 50));
    assert_eq!(service.project_count(), 1);
}

#[test]
fn tenants_are_scoped_per_configuration() {
    let mut service = Service::new();
    service.add_config("native", plain_config(10));
    service.add_config("js", plain_config(1000));

    // The same project id under two configurations keeps separate records:
    // 100/5s = 20/s blocks under the budget of 10/s, not under 1000/s.
    assert!(service.record_spending_at("native", 7, 0, 100));
    assert!(!service.record_spending_at("js", 7, 0, 100));
    assert_eq!(service.project_count(), 2);
}

#[test]
fn maintenance_sweeps_only_stale_records() {
    let mut service = Service::new();
    service.add_config("native", plain_config(100));
    assert!(!service.record_spending_at("native", 1, 0, 10));
    assert!(!service.record_spending_at("native", 2, 0, 10));
    assert_eq!(service.project_count(), 2);

    // At t = 3s the buckets recorded at t = 0 are still inside the 5s
    // window: nothing is stale.
    service.maintain_at(3 * SEC);
    assert_eq!(service.project_count(), 2);

    // At t = 20s every bucket is outside the window and no debounce is
    // pending: both records are swept.
    service.maintain_at(20 * SEC);
    assert_eq!(service.project_count(), 0);
}

#[test]
fn pending_debounce_prevents_staleness() {
    let mut service = Service::new();
    // debounce 30s, window 5s, budget 1/s.
    service.add_config("native", BudgetingConfig::new(30 * SEC, 5 * SEC, SEC, 1));
    // Flip to exceeding at t = 0: the deadline is armed until t = 30s.
    assert!(service.record_spending_at("native", 9, 0, 1_000));

    // At t = 10s the buckets are already outside the window, but the pending
    // debounce keeps the record alive.
    service.maintain_at(10 * SEC);
    assert_eq!(service.project_count(), 1);
    assert!(service.exceeds_budget_at("native", 9, 10 * SEC));

    // Once the deadline has passed, the record is stale and swept.
    service.maintain_at(31 * SEC);
    assert_eq!(service.project_count(), 0);
}

#[test]
fn service_with_real_clock() {
    let mut service = Service::new();
    service.add_config("native", plain_config(1_000_000));
    assert!(!service.exceeds_budget("native", 7));
    assert!(!service.record_spending("native", 7, 1));
    assert_eq!(service.project_count(), 1);
    // A fresh recording sits inside the window, so maintenance keeps it.
    service.maintain();
    assert_eq!(service.project_count(), 1);
}
