//! Laws of the budgeting engine, stated and proved over the spec-level
//! transition functions of [`crate::stats`].

use vstd::prelude::*;

use crate::config::BudgetParams;
use crate::config::trunc_of;
use crate::stats::MICROS_PER_SECOND;
use crate::stats::StatsModel;
use crate::stats::rate_exceeds;
use crate::stats::spec_check;
use crate::stats::spec_decision;
use crate::stats::spec_is_stale;
use crate::stats::spec_record;

verus! {

/// Truncation stays between zero and `now`, and within one bucket of `now`.
pub proof fn lemma_trunc_bounds(now: int, bucket: int)
    requires
        now >= 0,
        bucket > 0,
    ensures
        0 <= trunc_of(now, bucket) <= now,
        now - trunc_of(now, bucket) < bucket,
{
    assert(0 <= (now / bucket) * bucket <= now && now - (now / bucket) * bucket
        < bucket) by (nonlinear_arith)
        requires
            now >= 0,
            bucket > 0,
    ;
}

/// One call into a tenant record: either a spend recording or a budget check.
pub enum RecordOp {
    /// A `record_spending_at(now, spent)` call.
    Record { now: u64, spent: u64 },
    /// An `exceeds_budget_at(now)` call.
    Check { now: u64 },
}

impl RecordOp {
    /// The timer reading the operation happens at.
    pub open spec fn at(self) -> u64 {
        match self {
            RecordOp::Record { now, spent } => now,
            RecordOp::Check { now } => now,
        }
    }
}

/// The record state after one operation.
pub open spec fn apply_op(m: StatsModel, op: RecordOp) -> StatsModel {
    match op {
        RecordOp::Record { now, spent } => spec_record(m, now, spent).0,
        RecordOp::Check { now } => spec_check(m, now).0,
    }
}

/// The record state after a sequence of operations, applied front to back.
pub open spec fn apply_ops(m: StatsModel, ops: Seq<RecordOp>) -> StatsModel
    decreases ops.len(),
{
    if ops.len() == 0 {
        m
    } else {
        apply_ops(apply_op(m, ops[0]), ops.subrange(1, ops.len() as int))
    }
}

/// Law (debounce): while a backoff deadline is pending, no sequence of
/// recordings or budget checks at times before the deadline changes the
/// decision, nor the deadline itself — the decision is frozen.
pub proof fn lemma_debounce_holds(m: StatsModel, ops: Seq<RecordOp>, deadline: u64)
    requires
        m.backoff_deadline == Some(deadline),
        forall|i: int| 0 <= i < ops.len() ==> (#[trigger] ops[i]).at() < deadline,
    ensures
        apply_ops(m, ops).exceeds_budget == m.exceeds_budget,
        apply_ops(m, ops).backoff_deadline == Some(deadline),
    decreases ops.len(),
{
    if ops.len() > 0 {
        let m1 = apply_op(m, ops[0]);
        assert(m1.backoff_deadline == Some(deadline) && m1.exceeds_budget == m.exceeds_budget);
        let rest = ops.subrange(1, ops.len() as int);
        assert(forall|i: int| 0 <= i < rest.len() ==> (#[trigger] rest[i]).at() < deadline);
        lemma_debounce_holds(m1, rest, deadline);
    }
}

/// Law (debounce expiry): once the deadline has passed (or none is pending),
/// a budget check re-evaluates the decision freshly from the buckets.
pub proof fn lemma_debounce_expiry(m: StatsModel, now: u64)
    requires
        match m.backoff_deadline {
            Some(d) => d <= now,
            None => true,
        },
    ensures
        spec_check(m, now).1 == spec_decision(m, now),
        spec_check(m, now).0.exceeds_budget == spec_decision(m, now),
{
}

/// Law (staleness, pending backoff): a record with a pending backoff deadline
/// is never stale, regardless of its bucket contents.
pub proof fn lemma_stale_pending_backoff(m: StatsModel, now: u64, deadline: u64)
    requires
        m.backoff_deadline == Some(deadline),
        deadline > now,
    ensures
        !spec_is_stale(m, now),
{
}

/// Law (staleness, expired): once no backoff is pending and every bucket has
/// fallen out of the window, the record is stale.
pub proof fn lemma_stale_when_expired(m: StatsModel, now: u64)
    requires
        match m.backoff_deadline {
            Some(d) => d <= now,
            None => true,
        },
        forall|i: int|
            0 <= i < m.buckets.len() ==> (#[trigger] m.buckets[i]).0 + m.params.budgeting_window
                < trunc_of(now as int, m.params.bucket_size as int),
    ensures
        spec_is_stale(m, now),
{
}

/// The sum of the amounts in a sequence of (time, amount) recordings.
pub open spec fn total_amount(recs: Seq<(u64, u64)>) -> int
    decreases recs.len(),
{
    if recs.len() == 0 {
        0
    } else {
        recs[0].1 + total_amount(recs.subrange(1, recs.len() as int))
    }
}

/// Every recording in the sequence happens at a time whose bucket starts at
/// `t`.
pub open spec fn all_in_bucket(recs: Seq<(u64, u64)>, t: u64, bucket: int) -> bool {
    forall|i: int|
        0 <= i < recs.len() ==> trunc_of((#[trigger] recs[i]).0 as int, bucket) == t as int
}

/// The record state after a sequence of spend recordings.
pub open spec fn apply_records(m: StatsModel, recs: Seq<(u64, u64)>) -> StatsModel
    decreases recs.len(),
{
    if recs.len() == 0 {
        m
    } else {
        apply_records(spec_record(m, recs[0].0, recs[0].1).0, recs.subrange(1, recs.len() as int))
    }
}

/// Helper for the accumulation law: recording into an existing front bucket
/// adds the amounts to it and touches no other bucket's start time.
proof fn lemma_accumulate_into_front(m: StatsModel, recs: Seq<(u64, u64)>, t: u64)
    requires
        m.params.num_buckets >= 1,
        m.buckets.len() >= 1,
        m.buckets.len() <= m.params.num_buckets,
        m.buckets[0].0 == t,
        all_in_bucket(recs, t, m.params.bucket_size as int),
        m.buckets[0].1 + total_amount(recs) <= u64::MAX,
    ensures
        apply_records(m, recs).buckets.len() == m.buckets.len(),
        apply_records(m, recs).buckets[0] == (t, (m.buckets[0].1 + total_amount(recs)) as u64),
        apply_records(m, recs).params == m.params,
    decreases recs.len(),
{
    if recs.len() == 0 {
    } else {
        let rest = recs.subrange(1, recs.len() as int);
        assert(total_amount(rest) >= 0) by {
            lemma_total_amount_nonneg(rest);
        }
        let m1 = spec_record(m, recs[0].0, recs[0].1).0;
        assert(trunc_of(recs[0].0 as int, m.params.bucket_size as int) == t as int);
        assert(m1.buckets == m.buckets.update(0, (t, (m.buckets[0].1 + recs[0].1) as u64)));
        lemma_accumulate_into_front(m1, rest, t);
    }
}

/// Amounts are never negative.
proof fn lemma_total_amount_nonneg(recs: Seq<(u64, u64)>)
    ensures
        total_amount(recs) >= 0,
    decreases recs.len(),
{
    if recs.len() > 0 {
        lemma_total_amount_nonneg(recs.subrange(1, recs.len() as int));
    }
}

/// Law (bucket accumulation): for any sequence of spend recordings within a
/// single bucket — all times truncating to `t`, starting from a record whose
/// front bucket is older than `t` or absent — the front bucket afterwards
/// holds exactly the sum of the recorded amounts (stated for sums that fit
/// in a `u64`).
pub proof fn lemma_bucket_accumulates(m: StatsModel, recs: Seq<(u64, u64)>, t: u64)
    requires
        m.wf(),
        recs.len() >= 1,
        all_in_bucket(recs, t, m.params.bucket_size as int),
        m.buckets.len() == 0 || m.buckets[0].0 < t,
        total_amount(recs) <= u64::MAX,
    ensures
        apply_records(m, recs).buckets.len() >= 1,
        apply_records(m, recs).buckets[0] == (t, total_amount(recs) as u64),
{
    let rest = recs.subrange(1, recs.len() as int);
    assert(total_amount(rest) >= 0) by {
        lemma_total_amount_nonneg(rest);
    }
    let m1 = spec_record(m, recs[0].0, recs[0].1).0;
    assert(trunc_of(recs[0].0 as int, m.params.bucket_size as int) == t as int);
    assert(m1.buckets.len() >= 1 && m1.buckets.len() <= m.params.num_buckets && m1.buckets[0] == (
    t,
    recs[0].1,
    ));
    assert(apply_records(m, recs) == apply_records(m1, rest));
    lemma_accumulate_into_front(m1, rest, t);
}

/// Law (bounded ring with eviction): recording keeps the ring within the
/// configured bucket count, and when a full ring gets a new front bucket the
/// oldest bucket is evicted.
pub proof fn lemma_bucket_eviction(m: StatsModel, now: u64, spent: u64)
    requires
        m.wf(),
    ensures
        spec_record(m, now, spent).0.buckets.len() <= m.params.num_buckets,
        ({
            let t = trunc_of(now as int, m.params.bucket_size as int);
            (m.buckets.len() == m.params.num_buckets && (m.buckets.len() == 0 || m.buckets[0].0
                < t)) ==> spec_record(m, now, spent).0.buckets == (seq![((t as u64), spent)]
                + m.buckets).drop_last()
        }),
{
    lemma_trunc_bounds(now as int, m.params.bucket_size as int);
}

/// Law (rate normalization): whenever the window sum corresponds exactly to a
/// uniform per-second rate over the adjusted window, the decision compares
/// that rate against the budget — independently of where `now` falls inside
/// its bucket.
pub proof fn lemma_rate_normalization(sum: int, rate: int, budget: int, adjusted: int)
    requires
        adjusted > 0,
        sum * MICROS_PER_SECOND == rate * adjusted,
    ensures
        rate_exceeds(sum, budget, adjusted) == (rate > budget),
{
    assert((sum * MICROS_PER_SECOND > budget * adjusted) == (rate > budget)) by (nonlinear_arith)
        requires
            adjusted > 0,
            sum * MICROS_PER_SECOND == rate * adjusted,
    ;
}

/// Along the run of `ops` from `m`, the decision is "not exceeding" at every
/// intermediate state.
pub open spec fn never_exceeds(m: StatsModel, ops: Seq<RecordOp>) -> bool
    decreases ops.len(),
{
    &&& !m.exceeds_budget
    &&& (ops.len() > 0 ==> never_exceeds(apply_op(m, ops[0]), ops.subrange(1, ops.len() as int)))
}

/// Law (budget monotonicity): increasing only the allowed budget — all other
/// parameters and the whole history fixed — never turns a run that reported
/// "not exceeding" throughout into one that reports "exceeding" anywhere.
/// Stated for runs that start from fresh records and never exceed under the
/// smaller budget; a run that has already flipped under the smaller budget
/// can report differently under a larger one, because debounce deadlines
/// freeze decisions at different moments.
pub proof fn lemma_budget_monotone(p1: BudgetParams, p2: BudgetParams, ops: Seq<RecordOp>)
    requires
        p1.wf(),
        p2 == (BudgetParams { budget: p2.budget, ..p1 }),
        p1.budget <= p2.budget,
        never_exceeds(StatsModel::new_record(p1), ops),
    ensures
        never_exceeds(StatsModel::new_record(p2), ops),
{
    lemma_budget_monotone_step(StatsModel::new_record(p1), StatsModel::new_record(p2), ops);
}

/// Induction core for the monotonicity law: two records in lock-step, equal
/// but for the budget, both calm (decision false, no pending deadline); if
/// the smaller-budget run never exceeds, neither does the larger-budget run.
proof fn lemma_budget_monotone_step(m1: StatsModel, m2: StatsModel, ops: Seq<RecordOp>)
    requires
        m1.params.wf(),
        m2.params == (BudgetParams { budget: m2.params.budget, ..m1.params }),
        m1.params.budget <= m2.params.budget,
        m2.buckets == m1.buckets,
        !m1.exceeds_budget,
        !m2.exceeds_budget,
        m1.backoff_deadline is None,
        m2.backoff_deadline is None,
        never_exceeds(m1, ops),
    ensures
        never_exceeds(m2, ops),
    decreases ops.len(),
{
    if ops.len() > 0 {
        let op = ops[0];
        let rest = ops.subrange(1, ops.len() as int);
        let n1 = apply_op(m1, op);
        let n2 = apply_op(m2, op);
        assert(never_exceeds(m1, ops));
        assert(never_exceeds(n1, rest));
        let now = op.at();
        lemma_trunc_bounds(now as int, m1.params.bucket_size as int);
        let trunc = trunc_of(now as int, m1.params.bucket_size as int);
        assert(m1.params.budgeting_window >= m1.params.bucket_size) by (nonlinear_arith)
            requires
                m1.params.budgeting_window as int == m1.params.num_buckets as int
                    * m1.params.bucket_size as int,
                m1.params.num_buckets >= 1,
                m1.params.bucket_size > 0,
        ;
        // The bucket surgery is budget-independent, so both runs keep equal
        // buckets; and the smaller-budget decision was false, so by
        // monotonicity of the product the larger-budget decision is too.
        let b1 = match op {
            RecordOp::Record { now: n, spent } => StatsModel {
                buckets: crate::stats::spec_trim(
                    crate::stats::spec_insert(m1.buckets, (trunc as u64), spent),
                    m1.params.num_buckets as int,
                ),
                ..m1
            },
            RecordOp::Check { now: n } => m1,
        };
        let b2 = match op {
            RecordOp::Record { now: n, spent } => StatsModel {
                buckets: crate::stats::spec_trim(
                    crate::stats::spec_insert(m2.buckets, (trunc as u64), spent),
                    m2.params.num_buckets as int,
                ),
                ..m2
            },
            RecordOp::Check { now: n } => m2,
        };
        assert(b2.buckets == b1.buckets);
        assert(n1 == spec_check(b1, now).0);
        assert(n2 == spec_check(b2, now).0);
        assert(!n1.exceeds_budget);
        assert(!spec_decision(b1, now));
        let sum = crate::stats::window_sum(
            b1.buckets,
            trunc,
            m1.params.budgeting_window as int,
        );
        let adj = crate::stats::adjusted_window(
            now as int,
            trunc,
            m1.params.budgeting_window as int,
            m1.params.bucket_size as int,
        );
        assert(adj >= 0);
        assert(m1.params.budget as int * adj <= m2.params.budget as int * adj)
            by (nonlinear_arith)
            requires
                adj >= 0,
                m1.params.budget <= m2.params.budget,
        ;
        assert(!spec_decision(b2, now));
        assert(!n2.exceeds_budget && n2.backoff_deadline is None && n2.buckets == n1.buckets);
        lemma_budget_monotone_step(n1, n2, rest);
    }
}

} // verus!
