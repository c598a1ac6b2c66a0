//! Budgeting configuration and the coarse timer that all hot-path operations
//! read.
//!
//! Time is measured in whole microseconds elapsed since a [`Timer`] was
//! created.  The timer itself reads quanta's coarse clock through trusted
//! wrappers; everything downstream of the returned microsecond count is
//! verified arithmetic.

use vstd::prelude::*;

verus! {

/// Upper bound on how many time buckets a configuration may ask for, so that
/// windowed sums stay well inside `u128` arithmetic and the bucket ring stays
/// small in memory.
pub const MAX_BUCKET_COUNT: u64 = 0x1000_0000;

// quanta's clock and instant types are opaque to the verifier; values of
// these types are only created and read inside the trusted timer functions
// below.
#[verifier::external_type_specification]
#[verifier::external_body]
pub struct ExClock(quanta::Clock);

#[verifier::external_type_specification]
#[verifier::external_body]
pub struct ExInstant(quanta::Instant);

/// Relies on `quanta::Clock::clone`: a cloned clock reads the same time
/// source; nothing is claimed of the clone.
pub assume_specification[ <quanta::Clock as Clone>::clone ](c: &quanta::Clock) -> quanta::Clock;

/// Relies on `quanta::Instant::clone`; nothing is claimed of the clone.
pub assume_specification[ <quanta::Instant as Clone>::clone ](i: &quanta::Instant) -> quanta::Instant;

/// Relies on `quanta::Clock::new`: builds a clock with the best available
/// time source.
#[verifier::external_body]
pub(crate) fn new_clock() -> quanta::Clock {
    quanta::Clock::new()
}

/// Relies on `quanta::Clock::now` and `quanta::set_recent`: measures the
/// current time and publishes it as the process-wide "recent" reading.
#[verifier::external_body]
pub(crate) fn publish_now(clock: &quanta::Clock) {
    quanta::set_recent(clock.now());
}

/// `now` truncated down to the start of its bucket of width `bucket`.
pub open spec fn trunc_of(now: int, bucket: int) -> int {
    (now / bucket) * bucket
}

/// A timer over quanta's coarse clock: it hands out whole microseconds
/// elapsed since its creation, and can truncate such a reading to the start
/// of its containing bucket.
pub struct Timer {
    clock: quanta::Clock,
    start_time: quanta::Instant,
}

impl Clone for Timer {
    /// A cloned timer reads the same clock from the same epoch; since the
    /// clock is opaque, nothing is claimed of the clone.
    fn clone(&self) -> Timer {
        Timer { clock: self.clock.clone(), start_time: self.start_time.clone() }
    }
}

impl Timer {
    /// Relies on `quanta::Clock::recent`: records the most recently published
    /// reading of `clock` as this timer's epoch.
    #[verifier::external_body]
    pub fn new(clock: quanta::Clock) -> Timer {
        let start_time = clock.recent();
        Timer { clock, start_time }
    }

    /// Relies on `quanta::Clock::recent` and `quanta::Instant::duration_since`
    /// (which saturates at zero): microseconds elapsed between this timer's
    /// epoch and the most recently published clock reading.
    #[verifier::external_body]
    pub fn now(&self) -> u64 {
        self.clock.recent().duration_since(self.start_time).as_micros() as u64
    }

    /// Relies on `quanta::Clock::now`, `quanta::set_recent` and
    /// `quanta::Instant::duration_since`: measures the current time, publishes
    /// it process-wide, and returns it as microseconds since this timer's
    /// epoch.
    #[verifier::external_body]
    pub fn refresh(&self) -> u64 {
        let now = self.clock.now();
        quanta::set_recent(now);
        now.duration_since(self.start_time).as_micros() as u64
    }

    /// `now` truncated down to a multiple of `duration`.
    pub fn truncated(&self, now: u64, duration: u64) -> (r: u64)
        requires
            duration > 0,
        ensures
            r == trunc_of(now as int, duration as int),
            r <= now,
            now - r < duration,
    {
        proof {
            let n: int = now as int;
            let d: int = duration as int;
            assert((n / d) * d <= n && n - (n / d) * d < d) by (nonlinear_arith)
                requires
                    d > 0,
                    n >= 0,
            ;
        }
        (now / duration) * duration
    }
}

/// The plain numeric parameters of a budgeting configuration, all durations
/// in microseconds; this is the view under which contracts speak of a
/// [`BudgetingConfig`].
pub struct BudgetParams {
    /// Minimum time a decision persists before it may flip again.
    pub backoff_duration: u64,
    /// Length of the sliding budgeting window.
    pub budgeting_window: u64,
    /// Width of one time bucket.
    pub bucket_size: u64,
    /// Allowed spend per second; exceeding it strictly means over budget.
    pub budget: u64,
    /// Number of buckets retained: `budgeting_window / bucket_size`.
    pub num_buckets: usize,
}

impl BudgetParams {
    /// Well-formedness: the bucket width is positive and evenly divides the
    /// positive window, and the bucket count is small enough for windowed
    /// sums to stay inside `u128`.
    pub open spec fn wf(self) -> bool {
        &&& self.bucket_size > 0
        &&& self.num_buckets >= 1
        &&& self.num_buckets <= MAX_BUCKET_COUNT
        &&& self.budgeting_window as int == self.num_buckets as int * self.bucket_size as int
    }
}

/// The budgeting configuration: window, bucket width, backoff duration and
/// the allowed per-second budget, plus the timer used to select buckets.
pub struct BudgetingConfig {
    /// The "backoff" duration within which no flip-flopping of the
    /// "exceeded" state happens, in microseconds.
    pub backoff_duration: u64,
    /// Length of the sliding budgeting window, in microseconds.
    pub budgeting_window: u64,
    /// The width of the buckets that spent budget is sorted into, in
    /// microseconds.
    pub bucket_size: u64,
    /// The budget allowed per second.
    pub budget: u64,
    /// The number of time buckets to keep track of.
    pub num_buckets: usize,
    /// The timer used to select the proper bucket.
    pub timer: Timer,
}

impl View for BudgetingConfig {
    type V = BudgetParams;

    open spec fn view(&self) -> BudgetParams {
        BudgetParams {
            backoff_duration: self.backoff_duration,
            budgeting_window: self.budgeting_window,
            bucket_size: self.bucket_size,
            budget: self.budget,
            num_buckets: self.num_buckets,
        }
    }
}

impl BudgetingConfig {
    /// Creates a new configuration; durations are in microseconds and the
    /// budget is allowed spend per second.  The bucket width must be positive
    /// and divide the positive window evenly, and the resulting bucket count
    /// must stay within [`MAX_BUCKET_COUNT`].
    pub fn new(backoff_duration: u64, budgeting_window: u64, bucket_size: u64, budget: u64) -> (r:
        Self)
        requires
            bucket_size > 0,
            budgeting_window > 0,
            budgeting_window % bucket_size == 0,
            budgeting_window / bucket_size <= MAX_BUCKET_COUNT,
        ensures
            r@ == (BudgetParams {
                backoff_duration,
                budgeting_window,
                bucket_size,
                budget,
                num_buckets: (budgeting_window / bucket_size) as usize,
            }),
            r@.wf(),
    {
        proof {
            let w: int = budgeting_window as int;
            let b: int = bucket_size as int;
            assert(w == (w / b) * b && w / b >= 1) by (nonlinear_arith)
                requires
                    b > 0,
                    w > 0,
                    w % b == 0,
            ;
        }
        let num_buckets = (budgeting_window / bucket_size) as usize;
        let timer = Timer::new(new_clock());
        BudgetingConfig { backoff_duration, budgeting_window, bucket_size, budget, num_buckets, timer }
    }

    /// Overrides the [`Timer`] that is being used by this configuration,
    /// keeping every numeric parameter.
    pub fn with_timer(self, timer: Timer) -> (r: Self)
        ensures
            r@ == self@,
    {
        BudgetingConfig {
            backoff_duration: self.backoff_duration,
            budgeting_window: self.budgeting_window,
            bucket_size: self.bucket_size,
            budget: self.budget,
            num_buckets: self.num_buckets,
            timer,
        }
    }

    /// The timer's current reading, in microseconds since its epoch.
    pub(crate) fn now(&self) -> u64 {
        self.timer.now()
    }

    /// `now` truncated down to the start of its containing bucket.
    pub fn truncated_now(&self, now: u64) -> (r: u64)
        requires
            self@.wf(),
        ensures
            r == trunc_of(now as int, self@.bucket_size as int),
            r <= now,
            now - r < self@.bucket_size,
    {
        self.timer.truncated(now, self.bucket_size)
    }
}

} // verus!
