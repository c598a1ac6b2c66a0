//! A per-tenant budgeting engine: spend is recorded into fixed-width time
//! buckets, summed over a trailing window, normalized to a per-second rate,
//! and compared against a configured budget, with a debounce deadline that
//! keeps the over-budget decision from flapping.

pub mod config;
pub mod laws;
pub mod service;
pub mod stats;

pub use service::Service;
pub use service::ServiceModel;
pub use stats::ProjectStats;
pub use stats::StatsModel;
pub use config::BudgetParams;
pub use config::BudgetingConfig;
pub use config::Timer;
