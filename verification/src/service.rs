//! The registry: owns the named budgeting configurations and the concurrent
//! map of all tenant records, and routes every call.
//!
//! The configuration map is an insertion-ordered `indexmap::IndexMap`, so
//! each configuration has a stable small index and the hot path never clones
//! a name; the record map is a concurrent `dashmap::DashMap` keyed by that
//! index plus the project id.  Both maps are reached only through trusted
//! wrappers whose contracts are stated over the names [`im_entries`] and
//! [`dm_contents`].  The periodic maintenance step (clock refresh plus
//! stale-record sweep) is exposed as [`Service::maintain`]; the host process
//! drives it from a background task.

use std::collections::hash_map::RandomState;
use std::sync::Arc;
use vstd::prelude::*;

use crate::config::BudgetParams;
use crate::config::BudgetingConfig;
use crate::config::Timer;
use crate::config::new_clock;
use crate::config::publish_now;
use crate::stats::ProjectStats;
use crate::stats::StatsModel;
use crate::stats::spec_check;
use crate::stats::spec_is_stale;
use crate::stats::spec_record;

verus! {

#[verifier::external_type_specification]
#[verifier::external_body]
#[verifier::reject_recursive_types(K)]
#[verifier::reject_recursive_types(V)]
#[verifier::reject_recursive_types(S)]
pub struct ExIndexMap<K, V, S>(indexmap::IndexMap<K, V, S>);

#[verifier::external_type_specification]
#[verifier::external_body]
#[verifier::reject_recursive_types(K)]
#[verifier::reject_recursive_types(V)]
#[verifier::reject_recursive_types(S)]
pub struct ExDashMap<K, V, S>(dashmap::DashMap<K, V, S>);

/// What the configuration map holds, in insertion order: each policy name
/// with the numeric parameters of its configuration.
pub uninterp spec fn im_entries(
    m: indexmap::IndexMap<String, Arc<BudgetingConfig>, RandomState>,
) -> Seq<(Seq<char>, BudgetParams)>;

/// What the concurrent record map holds: the tenant record stored under each
/// (configuration index, project id) key.
pub uninterp spec fn dm_contents(
    m: dashmap::DashMap<(usize, u64), ProjectStats, RandomState>,
) -> Map<(usize, u64), ProjectStats>;

/// Relies on `indexmap::IndexMap::new`: the new map is empty.
#[verifier::external_body]
fn im_new() -> (r: indexmap::IndexMap<String, Arc<BudgetingConfig>, RandomState>)
    ensures
        im_entries(r).len() == 0,
{
    indexmap::IndexMap::new()
}

/// Relies on `indexmap::IndexMap::insert`: a key not yet present is appended
/// at the end of the insertion order and `None` is returned; for a present
/// key the previous value is returned.
#[verifier::external_body]
fn im_insert(
    m: &mut indexmap::IndexMap<String, Arc<BudgetingConfig>, RandomState>,
    name: &str,
    config: Arc<BudgetingConfig>,
) -> (r: Option<Arc<BudgetingConfig>>)
    ensures
        (forall|j: int|
            0 <= j < im_entries(*old(m)).len() ==> (#[trigger] im_entries(*old(m))[j]).0
                != name@) ==> im_entries(*final(m)) == im_entries(*old(m)).push((name@, config@))
            && r is None,
        (exists|j: int|
            0 <= j < im_entries(*old(m)).len() && (#[trigger] im_entries(*old(m))[j]).0 == name@)
            ==> r is Some,
{
    m.insert(name.to_string(), config)
}

/// Relies on `indexmap::IndexMap::get_full`: looks a key up and returns its
/// insertion index and a reference to its value; keys in the map are unique.
#[verifier::external_body]
fn im_get<'a>(
    m: &'a indexmap::IndexMap<String, Arc<BudgetingConfig>, RandomState>,
    name: &str,
) -> (r: Option<(usize, &'a Arc<BudgetingConfig>)>)
    ensures
        match r {
            Some(found) => {
                &&& found.0 < im_entries(*m).len()
                &&& im_entries(*m)[found.0 as int] == (name@, found.1@)
                &&& forall|j: int|
                    0 <= j < im_entries(*m).len() && j != found.0 ==> (#[trigger] im_entries(
                        *m,
                    )[j]).0 != name@
            },
            None => forall|j: int|
                0 <= j < im_entries(*m).len() ==> (#[trigger] im_entries(*m)[j]).0 != name@,
        },
{
    m.get_full(name).map(|found: (usize, &String, &Arc<BudgetingConfig>)| (found.0, found.2))
}

/// Relies on `std::sync::Arc::clone`: the clone is a handle to the same
/// configuration value.
#[verifier::external_body]
fn clone_config(c: &Arc<BudgetingConfig>) -> (r: Arc<BudgetingConfig>)
    ensures
        r == *c,
{
    Arc::clone(c)
}

/// Relies on `dashmap::DashMap::new`: the new map is empty.
#[verifier::external_body]
fn dm_new() -> (r: dashmap::DashMap<(usize, u64), ProjectStats, RandomState>)
    ensures
        dm_contents(r) =~= Map::empty(),
{
    dashmap::DashMap::new()
}

/// Relies on `dashmap::DashMap::insert`: stores the value under the key and
/// returns the previous value for it, if any.
#[verifier::external_body]
fn dm_insert(
    m: &mut dashmap::DashMap<(usize, u64), ProjectStats, RandomState>,
    key: (usize, u64),
    value: ProjectStats,
) -> (r: Option<ProjectStats>)
    ensures
        dm_contents(*final(m)) == dm_contents(*old(m)).insert(key, value),
        r is Some <==> dm_contents(*old(m)).dom().contains(key),
        r matches Some(previous) ==> previous == dm_contents(*old(m))[key],
{
    m.insert(key, value)
}

/// Relies on `dashmap::DashMap::remove`: removes and returns the value
/// stored under the key, if any.
#[verifier::external_body]
fn dm_remove(
    m: &mut dashmap::DashMap<(usize, u64), ProjectStats, RandomState>,
    key: &(usize, u64),
) -> (r: Option<ProjectStats>)
    ensures
        dm_contents(*final(m)) == dm_contents(*old(m)).remove(*key),
        r is Some <==> dm_contents(*old(m)).dom().contains(*key),
        r matches Some(removed) ==> removed == dm_contents(*old(m))[*key],
{
    m.remove(key).map(|kv: ((usize, u64), ProjectStats)| kv.1)
}

/// Relies on `dashmap::DashMap::len`: the number of stored entries.
#[verifier::external_body]
fn dm_len(m: &dashmap::DashMap<(usize, u64), ProjectStats, RandomState>) -> (r: usize)
    ensures
        r == dm_contents(*m).dom().len(),
{
    m.len()
}

/// Relies on `dashmap::DashMap::iter`: walks the entries in an unspecified
/// order, yielding each stored key exactly once.
#[verifier::external_body]
fn dm_keys(m: &dashmap::DashMap<(usize, u64), ProjectStats, RandomState>) -> (r: Vec<
    (usize, u64),
>)
    ensures
        r@.to_set() == dm_contents(*m).dom(),
        r@.no_duplicates(),
{
    m.iter().map(|entry| *entry.key()).collect()
}

/// The mathematical state of the registry: the configuration entries in
/// insertion order, and the stored tenant records.
#[verifier::ext_equal]
pub struct ServiceModel {
    /// (policy name, configuration parameters), in insertion order.
    pub configs: Seq<(Seq<char>, BudgetParams)>,
    /// The tenant record stored under each (configuration index, project id).
    pub budgets: Map<(usize, u64), ProjectStats>,
}

impl ServiceModel {
    /// Well-formedness: finitely many records; configuration names unique and
    /// parameters valid; every record well formed, keyed by a valid
    /// configuration index, and governed by that configuration's parameters.
    pub open spec fn wf(self) -> bool {
        &&& self.budgets.dom().finite()
        &&& forall|j: int, k: int|
            #![trigger self.configs[j], self.configs[k]]
            0 <= j < k < self.configs.len() ==> self.configs[j].0 != self.configs[k].0
        &&& forall|j: int| 0 <= j < self.configs.len() ==> (#[trigger] self.configs[j]).1.wf()
        &&& forall|key: (usize, u64)| #[trigger]
            self.budgets.dom().contains(key) ==> {
                &&& self.budgets[key]@.wf()
                &&& key.0 < self.configs.len()
                &&& self.budgets[key]@.params == self.configs[key.0 as int].1
            }
    }

    /// Whether a configuration with this name is registered.
    pub open spec fn has_config(self, name: Seq<char>) -> bool {
        exists|j: int| 0 <= j < self.configs.len() && (#[trigger] self.configs[j]).0 == name
    }

    /// The insertion index of the configuration with this name.
    pub open spec fn config_index(self, name: Seq<char>) -> int {
        choose|j: int| 0 <= j < self.configs.len() && (#[trigger] self.configs[j]).0 == name
    }
}

/// How one recording or query call changes the registry: an unknown policy
/// changes nothing and reports "not exceeding"; otherwise the tenant record
/// under (configuration index, project id) makes its step, a record being
/// created on recording (`create` true) but never on a pure query.
pub open spec fn step_post(
    pre: ServiceModel,
    post: ServiceModel,
    name: Seq<char>,
    project_id: u64,
    now: u64,
    spent: u64,
    create: bool,
    r: bool,
) -> bool {
    &&& post.configs == pre.configs
    &&& if !pre.has_config(name) {
        &&& r == false
        &&& post.budgets == pre.budgets
    } else {
        let key = (pre.config_index(name) as usize, project_id);
        let known = pre.budgets.dom().contains(key);
        if known || create {
            let m0 = if known {
                pre.budgets[key]@
            } else {
                StatsModel::new_record(pre.configs[pre.config_index(name)].1)
            };
            let outcome = if create {
                spec_record(m0, now, spent)
            } else {
                spec_check(m0, now)
            };
            &&& r == outcome.1
            &&& post.budgets.dom() == pre.budgets.dom().insert(key)
            &&& post.budgets[key]@ == outcome.0
            &&& forall|k2: (usize, u64)|
                k2 != key && pre.budgets.dom().contains(k2) ==> post.budgets[k2]
                    == pre.budgets[k2]
        } else {
            &&& r == false
            &&& post.budgets == pre.budgets
        }
    }
}

/// How one maintenance sweep changes the registry: exactly the records that
/// were stale at `now` are gone, everything else is untouched.
pub open spec fn sweep_post(pre: ServiceModel, post: ServiceModel, now: u64) -> bool {
    &&& post.configs == pre.configs
    &&& forall|key: (usize, u64)| #[trigger]
        post.budgets.dom().contains(key) <==> (pre.budgets.dom().contains(key) && !spec_is_stale(
            pre.budgets[key]@,
            now,
        ))
    &&& forall|key: (usize, u64)| #[trigger]
        post.budgets.dom().contains(key) ==> post.budgets[key] == pre.budgets[key]
}

/// The registry: the shared timer, the named configurations, and the
/// concurrent map of tenant records.
pub struct Service {
    /// The global timer used within all the configurations.
    timer: Timer,
    /// A map of known configurations; the insertion order gives each
    /// configuration a stable index, so the record map needs no owned name.
    configs: indexmap::IndexMap<String, Arc<BudgetingConfig>, RandomState>,
    /// A concurrent map containing all the project stats/budgets.
    project_budgets: dashmap::DashMap<(usize, u64), ProjectStats, RandomState>,
}

impl View for Service {
    type V = ServiceModel;

    closed spec fn view(&self) -> ServiceModel {
        ServiceModel {
            configs: im_entries(self.configs),
            budgets: dm_contents(self.project_budgets),
        }
    }
}

impl Service {
    /// Creates a new (empty) service and publishes a first clock reading.
    pub fn new() -> (r: Self)
        ensures
            r@.configs == Seq::<(Seq<char>, BudgetParams)>::empty(),
            r@.budgets == Map::<(usize, u64), ProjectStats>::empty(),
            r@.wf(),
    {
        let clock = new_clock();
        publish_now(&clock);
        let timer = Timer::new(clock);
        Service { timer, configs: im_new(), project_budgets: dm_new() }
    }

    /// Whether a configuration with this name is registered.
    pub fn has_config(&self, name: &str) -> (r: bool)
        ensures
            r == self@.has_config(name@),
    {
        im_get(&self.configs, name).is_some()
    }

    /// The number of tenant records currently stored.
    pub fn project_count(&self) -> (r: usize)
        ensures
            r == self@.budgets.dom().len(),
    {
        dm_len(&self.project_budgets)
    }

    /// Add/register a new configuration under a specific name.
    ///
    /// Registering the same name twice is a startup-time configuration error
    /// and deliberately fatal, not a recoverable runtime condition: callers
    /// must check [`Service::has_config`] first and abort on a duplicate.
    pub fn add_config(&mut self, name: &str, config: BudgetingConfig)
        requires
            old(self)@.wf(),
            config@.wf(),
            !old(self)@.has_config(name@),
        ensures
            final(self)@.wf(),
            final(self)@.configs == old(self)@.configs.push((name@, config@)),
            final(self)@.budgets == old(self)@.budgets,
    {
        let config = config.with_timer(self.timer.clone());
        let config = Arc::new(config);
        let ghost pre = self@;
        im_insert(&mut self.configs, name, config);
        proof {
            let post = self@;
            assert forall|key: (usize, u64)| #[trigger]
                post.budgets.dom().contains(key) implies {
                &&& post.budgets[key]@.wf()
                &&& key.0 < post.configs.len()
                &&& post.budgets[key]@.params == post.configs[key.0 as int].1
            } by {
                assert(pre.budgets.dom().contains(key));
            }
        }
    }

    /// Records spent budget for (configuration name, project id) at the timer
    /// reading `now`, creating the tenant record on first sight, and returns
    /// whether the project now exceeds its budget.  An unknown configuration
    /// records nothing and reports `false`.
    pub fn record_spending_at(&mut self, config: &str, project_id: u64, now: u64, spent: u64) -> (r:
        bool)
        requires
            old(self)@.wf(),
        ensures
            final(self)@.wf(),
            step_post(old(self)@, final(self)@, config@, project_id, now, spent, true, r),
    {
        let ghost pre = self@;
        match im_get(&self.configs, config) {
            None => false,
            Some(found) => {
                let idx = found.0;
                let cfg = clone_config(found.1);
                proof {
                    assert(pre.configs[idx as int] == (config@, found.1@));
                    assert(pre.configs[idx as int].0 == config@);
                    assert(pre.has_config(config@));
                    let j = pre.config_index(config@);
                    assert(pre.configs[j].0 == config@);
                    assert(j == idx as int);
                }
                let key = (idx, project_id);
                let mut stats = match dm_remove(&mut self.project_budgets, &key) {
                    Some(found_stats) => found_stats,
                    None => ProjectStats::new(cfg),
                };
                let r = stats.record_spending_at(now, spent);
                dm_insert(&mut self.project_budgets, key, stats);
                proof {
                    assert(self@.budgets.dom() =~= pre.budgets.dom().insert(key));
                }
                r
            },
        }
    }

    /// Records spent budget at the current timer reading.
    pub fn record_spending(&mut self, config: &str, project_id: u64, spent: u64) -> (r: bool)
        requires
            old(self)@.wf(),
        ensures
            final(self)@.wf(),
            exists|now: u64| #[trigger]
                step_post(old(self)@, final(self)@, config@, project_id, now, spent, true, r),
    {
        let now = self.timer.now();
        self.record_spending_at(config, project_id, now, spent)
    }

    /// Checks whether (configuration name, project id) exceeds its budget at
    /// the timer reading `now`.  A project that is not (yet) known always
    /// reports `false`, and no record is created for it.
    pub fn exceeds_budget_at(&mut self, config: &str, project_id: u64, now: u64) -> (r: bool)
        requires
            old(self)@.wf(),
        ensures
            final(self)@.wf(),
            step_post(old(self)@, final(self)@, config@, project_id, now, 0, false, r),
    {
        let ghost pre = self@;
        match im_get(&self.configs, config) {
            None => false,
            Some(found) => {
                let idx = found.0;
                proof {
                    assert(pre.configs[idx as int] == (config@, found.1@));
                    assert(pre.configs[idx as int].0 == config@);
                    assert(pre.has_config(config@));
                    let j = pre.config_index(config@);
                    assert(pre.configs[j].0 == config@);
                    assert(j == idx as int);
                }
                let key = (idx, project_id);
                match dm_remove(&mut self.project_budgets, &key) {
                    Some(mut stats) => {
                        let r = stats.exceeds_budget_at(now);
                        dm_insert(&mut self.project_budgets, key, stats);
                        proof {
                            assert(self@.budgets.dom() =~= pre.budgets.dom().insert(key));
                        }
                        r
                    },
                    None => {
                        proof {
                            assert(self@.budgets =~= pre.budgets);
                        }
                        false
                    },
                }
            },
        }
    }

    /// Checks whether (configuration name, project id) exceeds its budget at
    /// the current timer reading.
    pub fn exceeds_budget(&mut self, config: &str, project_id: u64) -> (r: bool)
        requires
            old(self)@.wf(),
        ensures
            final(self)@.wf(),
            exists|now: u64| #[trigger]
                step_post(old(self)@, final(self)@, config@, project_id, now, 0, false, r),
    {
        let now = self.timer.now();
        self.exceeds_budget_at(config, project_id, now)
    }

    /// One maintenance sweep at the timer reading `now`: scans all tenant
    /// records in a first pass, then removes exactly those that are (still)
    /// stale in a second pass, re-checking before each removal.
    pub fn maintain_at(&mut self, now: u64)
        requires
            old(self)@.wf(),
        ensures
            final(self)@.wf(),
            sweep_post(old(self)@, final(self)@, now),
    {
        let ghost pre = self@;
        let keys = dm_keys(&self.project_budgets);
        let n = keys.len();
        let mut i: usize = 0;
        while i < n
            invariant
                0 <= i <= n,
                n == keys@.len(),
                keys@.to_set() == pre.budgets.dom(),
                keys@.no_duplicates(),
                pre.wf(),
                self@.configs == pre.configs,
                self@.budgets.dom().finite(),
                forall|key: (usize, u64)| #[trigger]
                    self@.budgets.dom().contains(key) <==> (pre.budgets.dom().contains(key) && !(
                    (exists|j: int| 0 <= j < i && keys@[j] == key) && spec_is_stale(
                        pre.budgets[key]@,
                        now,
                    ))),
                forall|key: (usize, u64)| #[trigger]
                    self@.budgets.dom().contains(key) ==> self@.budgets[key] == pre.budgets[key],
            decreases n - i,
        {
            let key = keys[i];
            proof {
                assert(keys@.to_set().contains(key));
                assert(pre.budgets.dom().contains(key));
            }
            let removed = dm_remove(&mut self.project_budgets, &key);
            match removed {
                Some(stats) => {
                    if stats.is_stale(now) {
                        proof {
                            assert(self@.budgets.dom() =~= pre.budgets.dom().remove(key).intersect(
                                self@.budgets.dom(),
                            ));
                        }
                    } else {
                        dm_insert(&mut self.project_budgets, key, stats);
                    }
                },
                None => {
                },
            }
            i += 1;
            proof {
                assert forall|key2: (usize, u64)| #[trigger]
                    self@.budgets.dom().contains(key2) <==> (pre.budgets.dom().contains(key2) && !(
                    (exists|j: int| 0 <= j < i && keys@[j] == key2) && spec_is_stale(
                        pre.budgets[key2]@,
                        now,
                    ))) by {
                    if key2 == key {
                        assert(keys@[i - 1] == key2);
                    } else {
                        assert(forall|j: int| 0 <= j < i && keys@[j] == key2 <==> 0 <= j < i - 1
                            && keys@[j] == key2);
                    }
                }
            }
        }
        proof {
            assert forall|key: (usize, u64)|
                pre.budgets.dom().contains(key) implies (exists|j: int|
                0 <= j < n && keys@[j] == key) by {
                assert(keys@.to_set().contains(key));
                assert(keys@.contains(key));
                let j = choose|j: int| 0 <= j < keys@.len() && keys@[j] == key;
                assert(0 <= j < n && keys@[j] == key);
            }
        }
    }

    /// One maintenance step: publishes a refreshed clock reading, then sweeps
    /// stale tenant records at that reading.  The host process calls this from
    /// a dedicated background task, roughly every half second.
    pub fn maintain(&mut self)
        requires
            old(self)@.wf(),
        ensures
            final(self)@.wf(),
            exists|now: u64| #[trigger] sweep_post(old(self)@, final(self)@, now),
    {
        let now = self.timer.refresh();
        self.maintain_at(now);
    }
}

impl Default for Service {
    /// A default service is a new, empty one.
    fn default() -> (r: Self)
        ensures
            r@.configs.len() == 0,
            r@.budgets.dom() =~= Set::empty(),
            r@.wf(),
    {
        Service::new()
    }
}

} // verus!
