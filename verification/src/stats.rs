//! Per-tenant budget tracking: a bounded ring of time buckets over a sliding
//! window, an over-budget decision, and a backoff deadline that keeps the
//! decision from flapping.
//!
//! All behaviour is specified against [`StatsModel`], the mathematical state
//! of one record, through the transition functions [`spec_record`],
//! [`spec_check`] and [`spec_is_stale`].

use std::collections::VecDeque;
use std::sync::Arc;
use vstd::prelude::*;

use crate::config::BudgetParams;
use crate::config::BudgetingConfig;
use crate::config::MAX_BUCKET_COUNT;
use crate::config::trunc_of;

verus! {

/// Microseconds per second: window sums are normalized to per-second rates.
pub const MICROS_PER_SECOND: u64 = 1_000_000;

/// `u64` addition that saturates at `u64::MAX`.
pub open spec fn sat_add(a: u64, b: u64) -> u64 {
    if a + b > u64::MAX {
        u64::MAX
    } else {
        (a + b) as u64
    }
}

/// A bucket starting at `ts` lies inside the trailing window of length
/// `window` that ends at the truncated time `trunc`.
pub open spec fn in_window(ts: int, trunc: int, window: int) -> bool {
    ts + window >= trunc
}

/// Total spend recorded in the buckets that lie inside the window.
pub open spec fn window_sum(buckets: Seq<(u64, u64)>, trunc: int, window: int) -> int
    decreases buckets.len(),
{
    if buckets.len() == 0 {
        0
    } else {
        window_sum(buckets.drop_last(), trunc, window) + if in_window(
            buckets.last().0 as int,
            trunc,
            window,
        ) {
            buckets.last().1 as int
        } else {
            0
        }
    }
}

/// The window length used for rate normalization: when `now` lies inside a
/// partially elapsed bucket, that bucket's nominal width is replaced by the
/// actually elapsed slice `now - trunc`.
pub open spec fn adjusted_window(now: int, trunc: int, window: int, bucket: int) -> int {
    if now == trunc {
        window
    } else {
        window - bucket + (now - trunc)
    }
}

/// The over-budget decision: the window sum, normalized per second over the
/// adjusted window, strictly exceeds the allowed budget.  Stated without
/// division: `sum / (adjusted/1_000_000) > budget`.
pub open spec fn rate_exceeds(sum: int, budget: int, adjusted: int) -> bool {
    sum * MICROS_PER_SECOND > budget * adjusted
}

/// The mathematical state of one tenant accounting record.  Buckets are
/// newest first, strictly decreasing in start time.
#[verifier::ext_equal]
pub struct StatsModel {
    /// The numeric parameters of the owning configuration.
    pub params: BudgetParams,
    /// The last computed decision.
    pub exceeds_budget: bool,
    /// While `now` is before this deadline, the decision is frozen.
    pub backoff_deadline: Option<u64>,
    /// (bucket start time, accumulated spend) pairs, newest at index 0.
    pub buckets: Seq<(u64, u64)>,
}

impl StatsModel {
    /// Well-formedness: valid parameters, no more buckets than configured,
    /// and bucket start times strictly decreasing from front to back.
    pub open spec fn wf(self) -> bool {
        &&& self.params.wf()
        &&& self.buckets.len() <= self.params.num_buckets
        &&& forall|i: int, j: int|
            #![trigger self.buckets[i], self.buckets[j]]
            0 <= i < j < self.buckets.len() ==> self.buckets[i].0 > self.buckets[j].0
    }

    /// The state of a newly created record.
    pub open spec fn new_record(params: BudgetParams) -> StatsModel {
        StatsModel {
            params,
            exceeds_budget: false,
            backoff_deadline: None,
            buckets: Seq::empty(),
        }
    }
}

/// Spend lands in the front bucket when that bucket's start time is at or
/// after the current truncated time; otherwise a new front bucket is made.
pub open spec fn spec_insert(buckets: Seq<(u64, u64)>, trunc: u64, spent: u64) -> Seq<(u64, u64)> {
    if buckets.len() > 0 && buckets[0].0 >= trunc {
        buckets.update(0, (buckets[0].0, sat_add(buckets[0].1, spent)))
    } else {
        seq![(trunc, spent)] + buckets
    }
}

/// After insertion, the oldest bucket is dropped if the ring grew beyond the
/// configured count.
pub open spec fn spec_trim(buckets: Seq<(u64, u64)>, num_buckets: int) -> Seq<(u64, u64)> {
    if buckets.len() > num_buckets {
        buckets.drop_last()
    } else {
        buckets
    }
}

/// The freshly computed decision for `m` at time `now`, ignoring any backoff.
pub open spec fn spec_decision(m: StatsModel, now: u64) -> bool {
    let trunc = trunc_of(now as int, m.params.bucket_size as int);
    let sum = window_sum(m.buckets, trunc, m.params.budgeting_window as int);
    let adj = adjusted_window(
        now as int,
        trunc,
        m.params.budgeting_window as int,
        m.params.bucket_size as int,
    );
    rate_exceeds(sum, m.params.budget as int, adj)
}

/// A budget check once any expired backoff deadline has been cleared: the
/// decision is recomputed, and a flip arms a new deadline.
pub open spec fn spec_check_fresh(m: StatsModel, now: u64) -> (StatsModel, bool) {
    let ex = spec_decision(m, now);
    if ex != m.exceeds_budget {
        (
            StatsModel {
                exceeds_budget: ex,
                backoff_deadline: Some(sat_add(now, m.params.backoff_duration)),
                ..m
            },
            ex,
        )
    } else {
        (StatsModel { backoff_deadline: None, ..m }, ex)
    }
}

/// A budget check at time `now`: frozen while a backoff deadline is pending,
/// recomputed otherwise.
pub open spec fn spec_check(m: StatsModel, now: u64) -> (StatsModel, bool) {
    match m.backoff_deadline {
        Some(d) => if d > now {
            (m, m.exceeds_budget)
        } else {
            spec_check_fresh(m, now)
        },
        None => spec_check_fresh(m, now),
    }
}

/// Recording spend: insert into the bucket ring, trim it, then check the
/// budget.
pub open spec fn spec_record(m: StatsModel, now: u64, spent: u64) -> (StatsModel, bool) {
    let trunc = trunc_of(now as int, m.params.bucket_size as int) as u64;
    let m2 = StatsModel {
        buckets: spec_trim(spec_insert(m.buckets, trunc, spent), m.params.num_buckets as int),
        ..m
    };
    spec_check(m2, now)
}

/// A record is stale when no backoff deadline is pending and every retained
/// bucket starts strictly before the window that ends at `now`'s truncation.
pub open spec fn spec_is_stale(m: StatsModel, now: u64) -> bool {
    let trunc = trunc_of(now as int, m.params.bucket_size as int);
    &&& match m.backoff_deadline {
        Some(d) => d <= now,
        None => true,
    }
    &&& forall|i: int|
        0 <= i < m.buckets.len() ==> (#[trigger] m.buckets[i]).0 + m.params.budgeting_window
            < trunc
}

/// The rate reported by `spent_budget`: the window sum normalized per second
/// over the adjusted window, rounded down.
pub open spec fn spec_spent_rate(m: StatsModel, now: u64) -> int {
    let trunc = trunc_of(now as int, m.params.bucket_size as int);
    let sum = window_sum(m.buckets, trunc, m.params.budgeting_window as int);
    let adj = adjusted_window(
        now as int,
        trunc,
        m.params.budgeting_window as int,
        m.params.bucket_size as int,
    );
    (sum * MICROS_PER_SECOND) / adj
}

/// Per-project budget tracking.
///
/// This allows spent budget to be recorded, and allows checking whether the
/// total budget (within the configured time window) has been exceeded.
pub struct ProjectStats {
    /// Configuration that governs the budgeting and bucketing.
    config: Arc<BudgetingConfig>,
    /// Whether this project exceeds its budget in the current window.
    exceeds_budget: bool,
    /// The deadline after which a project's state can change, to avoid rapid
    /// flip-flopping.
    backoff_deadline: Option<u64>,
    /// The buckets that are used to keep track of the spent budget.
    budget_buckets: VecDeque<(u64, u64)>,
}

impl View for ProjectStats {
    type V = StatsModel;

    closed spec fn view(&self) -> StatsModel {
        StatsModel {
            params: self.config@,
            exceeds_budget: self.exceeds_budget,
            backoff_deadline: self.backoff_deadline,
            buckets: self.budget_buckets@,
        }
    }
}

impl ProjectStats {
    /// Create a new per-project tracker based on the given
    /// [`BudgetingConfig`].
    pub fn new(config: Arc<BudgetingConfig>) -> (r: Self)
        requires
            config@.wf(),
        ensures
            r@ == StatsModel::new_record(config@),
            r@.wf(),
    {
        // One extra bucket may temporarily exist when spending is recorded.
        let budget_buckets = VecDeque::with_capacity(config.num_buckets + 1);
        ProjectStats { config, exceeds_budget: false, backoff_deadline: None, budget_buckets }
    }

    /// Total spend recorded in the buckets that lie inside the window ending
    /// at `truncated_now`.
    fn window_total(&self, truncated_now: u64) -> (r: u128)
        requires
            self@.wf(),
        ensures
            r as int == window_sum(
                self@.buckets,
                truncated_now as int,
                self@.params.budgeting_window as int,
            ),
            r as int <= self@.buckets.len() * (u64::MAX as int),
    {
        let window = self.config.budgeting_window;
        let n = self.budget_buckets.len();
        let ghost bs = self@.buckets;
        let mut sum: u128 = 0;
        let mut i: usize = 0;
        while i < n
            invariant
                0 <= i <= n,
                n == bs.len(),
                bs == self@.buckets,
                self@.wf(),
                window == self@.params.budgeting_window,
                sum as int == window_sum(bs.take(i as int), truncated_now as int, window as int),
                sum as int <= i * (u64::MAX as int),
            decreases n - i,
        {
            let b = self.budget_buckets[i];
            proof {
                assert(bs.take(i as int + 1).drop_last() =~= bs.take(i as int));
                assert(bs.take(i as int + 1).last() == bs[i as int]);
            }
            if (b.0 as u128) + (window as u128) >= (truncated_now as u128) {
                sum = sum + (b.1 as u128);
            }
            i += 1;
        }
        proof {
            assert(bs.take(n as int) =~= bs);
        }
        sum
    }

    /// Returns the spent budget within the window, normalized *per second*
    /// over the adjusted window and rounded down (saturating at `u64::MAX`).
    pub fn spent_budget(&self, now: u64, truncated_now: u64) -> (r: u64)
        requires
            self@.wf(),
            truncated_now == trunc_of(now as int, self@.params.bucket_size as int),
            truncated_now <= now,
            now - truncated_now < self@.params.bucket_size,
        ensures
            spec_spent_rate(self@, now) > u64::MAX ==> r == u64::MAX,
            spec_spent_rate(self@, now) <= u64::MAX ==> r as int == spec_spent_rate(self@, now),
    {
        let sum = self.window_total(truncated_now);
        let window = self.config.budgeting_window;
        let bucket = self.config.bucket_size;
        proof {
            let w: int = window as int;
            let b: int = bucket as int;
            let k: int = self@.params.num_buckets as int;
            assert(w >= b) by (nonlinear_arith)
                requires
                    w == k * b,
                    k >= 1,
                    b > 0,
            ;
        }
        // The configured budget is meant as a per-second budget.  To report
        // that, we divide by the real elapsed time covered by the window, to
        // avoid artifacts resulting from the bucketing as much as possible.
        let adjusted: u64 = if now == truncated_now {
            // The budgeting window is already exactly correct.
            window
        } else {
            // A new, incomplete bucket has started: we replace that bucket's
            // nominal width with the actually elapsed slice.
            window - bucket + (now - truncated_now)
        };
        proof {
            let s: int = sum as int;
            let cap: int = MAX_BUCKET_COUNT as int * (u64::MAX as int);
            assert(s <= cap) by (nonlinear_arith)
                requires
                    s <= self@.buckets.len() * (u64::MAX as int),
                    self@.buckets.len() <= MAX_BUCKET_COUNT as int,
                    cap == MAX_BUCKET_COUNT as int * (u64::MAX as int),
            ;
        }
        proof {
            assert(adjusted >= 1);
            assert(sum as int * (MICROS_PER_SECOND as int) <= MAX_BUCKET_COUNT as int * (
            u64::MAX as int) * (MICROS_PER_SECOND as int));
        }
        let rate: u128 = sum * (MICROS_PER_SECOND as u128) / (adjusted as u128);
        if rate > (u64::MAX as u128) {
            u64::MAX
        } else {
            rate as u64
        }
    }

    /// Checks whether this project exceeds its allotted budget.
    ///
    /// On a state update, this registers a "backoff" deadline to avoid rapid
    /// flip-flopping.
    fn check_budget(&mut self, now: u64, truncated_now: u64) -> (r: bool)
        requires
            old(self)@.wf(),
            truncated_now == trunc_of(now as int, old(self)@.params.bucket_size as int),
            truncated_now <= now,
            now - truncated_now < old(self)@.params.bucket_size,
        ensures
            final(self)@ == spec_check(old(self)@, now).0,
            r == spec_check(old(self)@, now).1,
            final(self)@.wf(),
    {
        if let Some(deadline) = self.backoff_deadline {
            if deadline > now {
                return self.exceeds_budget;
            }
            self.backoff_deadline = None;
        }
        let sum = self.window_total(truncated_now);
        let window = self.config.budgeting_window;
        let bucket = self.config.bucket_size;
        let budget = self.config.budget;
        proof {
            let w: int = window as int;
            let b: int = bucket as int;
            let k: int = self@.params.num_buckets as int;
            assert(w >= b) by (nonlinear_arith)
                requires
                    w == k * b,
                    k >= 1,
                    b > 0,
            ;
            let s: int = sum as int;
            let cap: int = MAX_BUCKET_COUNT as int * (u64::MAX as int);
            assert(s <= cap) by (nonlinear_arith)
                requires
                    s <= self@.buckets.len() * (u64::MAX as int),
                    self@.buckets.len() <= MAX_BUCKET_COUNT as int,
                    cap == MAX_BUCKET_COUNT as int * (u64::MAX as int),
            ;
        }
        let adjusted: u64 = if now == truncated_now {
            window
        } else {
            window - bucket + (now - truncated_now)
        };
        proof {
            assert((budget as int) * (adjusted as int) <= (u64::MAX as int) * (
            u64::MAX as int)) by (nonlinear_arith)
                requires
                    budget <= u64::MAX,
                    adjusted <= u64::MAX,
            ;
            assert(sum as int * (MICROS_PER_SECOND as int) <= MAX_BUCKET_COUNT as int * (
            u64::MAX as int) * (MICROS_PER_SECOND as int));
        }
        let exceeds_budget = sum * (MICROS_PER_SECOND as u128) > (budget as u128) * (
        adjusted as u128);
        if self.exceeds_budget != exceeds_budget {
            self.exceeds_budget = exceeds_budget;
            let deadline = if now <= u64::MAX - self.config.backoff_duration {
                now + self.config.backoff_duration
            } else {
                u64::MAX
            };
            self.backoff_deadline = Some(deadline);
        }
        exceeds_budget
    }

    /// Checks whether this project exceeds its budget, at the timer reading
    /// `now`.
    pub fn exceeds_budget_at(&mut self, now: u64) -> (r: bool)
        requires
            old(self)@.wf(),
        ensures
            final(self)@ == spec_check(old(self)@, now).0,
            r == spec_check(old(self)@, now).1,
            final(self)@.wf(),
    {
        let truncated_now = self.config.truncated_now(now);
        self.check_budget(now, truncated_now)
    }

    /// Checks whether this project exceeds its budgets, at the current
    /// reading of the configuration's timer.
    pub fn exceeds_budget(&mut self) -> (r: bool)
        requires
            old(self)@.wf(),
        ensures
            exists|now: u64|
                final(self)@ == (#[trigger] spec_check(old(self)@, now)).0 && r == spec_check(
                    old(self)@,
                    now,
                ).1,
            final(self)@.wf(),
    {
        let now = self.config.now();
        self.exceeds_budget_at(now)
    }

    /// Records spent budget at the timer reading `now` and returns the
    /// updated decision.
    pub fn record_spending_at(&mut self, now: u64, spent: u64) -> (r: bool)
        requires
            old(self)@.wf(),
        ensures
            final(self)@ == spec_record(old(self)@, now, spent).0,
            r == spec_record(old(self)@, now, spent).1,
            final(self)@.wf(),
    {
        let ghost m0 = self@;
        let truncated_now = self.config.truncated_now(now);
        // Insert into the front bucket, or start a new one.
        if self.budget_buckets.len() > 0 && self.budget_buckets[0].0 >= truncated_now {
            let front = self.budget_buckets.pop_front().unwrap();
            let total = if front.1 <= u64::MAX - spent {
                front.1 + spent
            } else {
                u64::MAX
            };
            self.budget_buckets.push_front((front.0, total));
            proof {
                assert(self@.buckets =~= spec_insert(m0.buckets, truncated_now, spent));
            }
        } else {
            self.budget_buckets.push_front((truncated_now, spent));
            proof {
                assert(self@.buckets =~= spec_insert(m0.buckets, truncated_now, spent));
            }
        }
        // Drop the oldest bucket if the ring grew beyond the configured count.
        if self.budget_buckets.len() > self.config.num_buckets {
            self.budget_buckets.pop_back();
        }
        proof {
            assert(self@.buckets =~= spec_trim(
                spec_insert(m0.buckets, truncated_now, spent),
                m0.params.num_buckets as int,
            ));
            assert(self@ =~= (StatsModel {
                buckets: spec_trim(
                    spec_insert(m0.buckets, truncated_now, spent),
                    m0.params.num_buckets as int,
                ),
                ..m0
            }));
        }
        self.check_budget(now, truncated_now)
    }

    /// Records spent budget at the current reading of the configuration's
    /// timer and returns the updated decision.
    pub fn record_spending(&mut self, spent: u64) -> (r: bool)
        requires
            old(self)@.wf(),
        ensures
            exists|now: u64|
                final(self)@ == (#[trigger] spec_record(old(self)@, now, spent)).0 && r
                    == spec_record(old(self)@, now, spent).1,
            final(self)@.wf(),
    {
        let now = self.config.now();
        self.record_spending_at(now, spent)
    }

    /// Checks whether all of the buckets are outside the current budgeting
    /// window and no backoff is pending; such stats can be cleaned up.
    pub fn is_stale(&self, now: u64) -> (r: bool)
        requires
            self@.wf(),
        ensures
            r == spec_is_stale(self@, now),
    {
        if let Some(deadline) = self.backoff_deadline {
            // we are in backoff, so no cleanup should happen
            if deadline > now {
                return false;
            }
        }
        let truncated_now = self.config.truncated_now(now);
        let window = self.config.budgeting_window;
        let n = self.budget_buckets.len();
        let mut i: usize = 0;
        while i < n
            invariant
                0 <= i <= n,
                n == self@.buckets.len(),
                self@.wf(),
                window == self@.params.budgeting_window,
                truncated_now == trunc_of(now as int, self@.params.bucket_size as int),
                forall|j: int|
                    0 <= j < i ==> (#[trigger] self@.buckets[j]).0 + window < truncated_now,
            decreases n - i,
        {
            let b = self.budget_buckets[i];
            if (b.0 as u128) + (window as u128) >= (truncated_now as u128) {
                return false;
            }
            i += 1;
        }
        true
    }
}

} // verus!
