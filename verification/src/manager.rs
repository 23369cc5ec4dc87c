//! The task manager: what it keeps about jobs, and the decisions that need
//! only that.
use std::collections::{HashMap, HashSet};

use dashmap::DashMap;
use vstd::prelude::*;

use crate::cache::{stage_plan_encoded, JobInfo, JobInfoCache};
use crate::error::BallistaError;
use crate::graph::GraphId;
use crate::lifecycle::LifecycleId;
use crate::maps;
use crate::status::{is_running, is_running_status, JobStatus};

verus! {

/// Stage state changes that are collected while task status updates are
/// processed.
#[derive(Debug)]
pub struct UpdatedStages {
    /// Stages that have been resolved and are ready to run.
    pub resolved_stages: HashSet<usize>,
    /// Stages that have completed successfully.
    pub successful_stages: HashSet<usize>,
    /// Stages that have failed, with their error messages.
    pub failed_stages: HashMap<usize, String>,
    /// Running stages that have to be rolled back, with the failure reasons.
    pub rollback_running_stages: HashMap<usize, HashSet<String>>,
    /// Successful stages that have to run again because their output was lost.
    pub resubmit_successful_stages: HashSet<usize>,
}

/// `HashSet::clone` of the standard library: a set with the same elements.
#[verifier::external_body]
fn clone_stages(stages: &HashSet<usize>) -> (copy: HashSet<usize>)
    ensures
        copy@ == stages@,
{
    stages.clone()
}

impl Clone for UpdatedStages {
    fn clone(&self) -> (copy: Self)
        ensures
            copy.resolved_stages@ == self.resolved_stages@,
            copy.successful_stages@ == self.successful_stages@,
            copy.failed_stages@ == self.failed_stages@,
            copy.rollback_running_stages@ == self.rollback_running_stages@,
            copy.resubmit_successful_stages@ == self.resubmit_successful_stages@,
    {
        UpdatedStages {
            resolved_stages: clone_stages(&self.resolved_stages),
            successful_stages: clone_stages(&self.successful_stages),
            failed_stages: self.failed_stages.clone(),
            rollback_running_stages: self.rollback_running_stages.clone(),
            resubmit_successful_stages: clone_stages(&self.resubmit_successful_stages),
        }
    }
}

/// Keeps the active jobs of one scheduler and the controls of all jobs that are
/// on their way to being active.
pub struct TaskManager {
    /// Unique identifier of the scheduler.
    scheduler_id: String,
    /// Whether encoded stage plans are cached.
    caches_plans: bool,
    /// The active jobs.
    active_job_cache: DashMap<String, JobInfoCache>,
    /// The control of each job that has one.
    job_lifecycles: DashMap<String, LifecycleId>,
}

/// The mathematical counterpart of a [`TaskManager`].
pub struct Manager {
    pub scheduler_id: Seq<char>,
    pub caches_plans: bool,
    pub active: Map<Seq<char>, JobInfo>,
    pub controls: Map<Seq<char>, LifecycleId>,
}

impl View for TaskManager {
    type V = Manager;

    closed spec fn view(&self) -> Manager {
        Manager {
            scheduler_id: self.scheduler_id@,
            caches_plans: self.caches_plans,
            active: maps::active_jobs(self.active_job_cache),
            controls: maps::job_controls(self.job_lifecycles),
        }
    }
}

impl Manager {
    /// A manager that knows of no job.
    pub open spec fn fresh(scheduler_id: Seq<char>, caches_plans: bool) -> Manager {
        Manager { scheduler_id, caches_plans, active: Map::empty(), controls: Map::empty() }
    }

    /// The manager with a job put in the active cache.
    pub open spec fn with_active(self, job_id: Seq<char>, info: JobInfo) -> Manager {
        Manager { active: self.active.insert(job_id, info), ..self }
    }

    /// The manager with a job taken out of the active cache.
    pub open spec fn without_active(self, job_id: Seq<char>) -> Manager {
        Manager { active: self.active.remove(job_id), ..self }
    }

    /// The execution graph of an active job.
    pub open spec fn graph_of(self, job_id: Seq<char>) -> Option<GraphId> {
        if self.active.contains_key(job_id) {
            Some(self.active[job_id].execution_graph)
        } else {
            None
        }
    }

    /// Whether the encoder is needed for the plan of a stage: the job is active
    /// and the plan is not cached, or plans are not cached at all.
    pub open spec fn needs_plan(self, job_id: Seq<char>, stage_id: usize) -> bool {
        &&& self.active.contains_key(job_id)
        &&& !self.caches_plans || !self.active[job_id].plans.contains_key(stage_id)
    }

    /// The control of a job.
    pub open spec fn control_of(self, job_id: Seq<char>) -> Option<LifecycleId> {
        if self.controls.contains_key(job_id) {
            Some(self.controls[job_id])
        } else {
            None
        }
    }

    /// The manager with a control for a job: the one that it has, or else `fresh`.
    pub open spec fn with_control(self, job_id: Seq<char>, fresh: LifecycleId) -> Manager {
        if self.controls.contains_key(job_id) {
            self
        } else {
            Manager { controls: self.controls.insert(job_id, fresh), ..self }
        }
    }

    /// The manager without a control for a job.
    pub open spec fn without_control(self, job_id: Seq<char>) -> Manager {
        Manager { controls: self.controls.remove(job_id), ..self }
    }
}

impl TaskManager {
    /// A manager that knows of no job and caches encoded stage plans.
    pub fn new(scheduler_id: String) -> (manager: Self)
        ensures
            manager@ == Manager::fresh(scheduler_id@, true),
    {
        TaskManager {
            scheduler_id,
            caches_plans: true,
            active_job_cache: maps::new_active_cache(),
            job_lifecycles: maps::new_lifecycle_map(),
        }
    }

    /// A manager that knows of no job and encodes a stage plan anew each time
    /// that it is needed.
    pub fn without_plan_cache(scheduler_id: String) -> (manager: Self)
        ensures
            manager@ == Manager::fresh(scheduler_id@, false),
    {
        TaskManager {
            scheduler_id,
            caches_plans: false,
            active_job_cache: maps::new_active_cache(),
            job_lifecycles: maps::new_lifecycle_map(),
        }
    }

    /// The scheduler that the manager works for.
    pub fn scheduler_id(&self) -> (scheduler_id: &String)
        ensures
            scheduler_id@ == self@.scheduler_id,
    {
        &self.scheduler_id
    }

    /// The control of a job. A job without one gets `fresh`, which must not be
    /// the identifier of a control that is still in use.
    pub fn job_lifecycle(&mut self, job_id: &str, fresh: LifecycleId) -> (lifecycle: LifecycleId)
        ensures
            final(self)@ == old(self)@.with_control(job_id@, fresh),
            final(self)@.control_of(job_id@) == Some(lifecycle),
    {
        maps::lifecycle_or_insert(&mut self.job_lifecycles, job_id.to_owned(), fresh)
    }

    /// The control of a job, if it has one.
    pub fn find_lifecycle(&self, job_id: &str) -> (lifecycle: Option<LifecycleId>)
        ensures
            lifecycle == self@.control_of(job_id@),
    {
        maps::lifecycle_get(&self.job_lifecycles, job_id)
    }

    /// Takes the control of a job away if it is still `lifecycle`, and says
    /// whether it was. A newer control of the same job stays.
    pub fn release_lifecycle(&mut self, job_id: &str, lifecycle: LifecycleId) -> (released: bool)
        ensures
            released == (old(self)@.control_of(job_id@) == Some(lifecycle)),
            final(self)@ == (if released {
                old(self)@.without_control(job_id@)
            } else {
                old(self)@
            }),
    {
        maps::lifecycle_remove_if(&mut self.job_lifecycles, job_id, lifecycle)
    }

    /// Takes the control of a job away, whichever it is.
    pub(crate) fn drop_lifecycle(&mut self, job_id: &str) -> (dropped: Option<LifecycleId>)
        ensures
            dropped == old(self)@.control_of(job_id@),
            final(self)@ == old(self)@.without_control(job_id@),
    {
        maps::lifecycle_remove(&mut self.job_lifecycles, job_id)
    }

    /// Gives a job that the persistent job state has accepted a control. A control
    /// that is already there stays: it may hold the tombstone of a
    /// cancellation that came early.
    pub fn queue_job<E>(
        &mut self,
        job_id: &str,
        fresh: LifecycleId,
        accepted: Result<(), BallistaError<E>>,
    ) -> (queued: Result<LifecycleId, BallistaError<E>>)
        ensures
            match accepted {
                Ok(_) => {
                    &&& final(self)@ == old(self)@.with_control(job_id@, fresh)
                    &&& queued matches Ok(lifecycle) && final(self)@.control_of(job_id@) == Some(
                        lifecycle,
                    )
                },
                Err(error) => {
                    &&& final(self)@ == old(self)@
                    &&& queued == Err::<LifecycleId, BallistaError<E>>(error)
                },
            },
    {
        match accepted {
            Ok(_) => Ok(self.job_lifecycle(job_id, fresh)),
            Err(error) => Err(error),
        }
    }

    /// The number of active jobs.
    pub fn running_job_number(&self) -> (count: usize)
        ensures
            count == self@.active.len(),
    {
        maps::active_len(&self.active_job_cache)
    }

    /// Every active job once, with what is cached for it except the encoded
    /// plans, in no particular order.
    pub fn active_job_infos(&self) -> (entries: Vec<(String, JobInfoCache)>)
        ensures
            maps::lists_active(self@.active, entries@),
    {
        maps::active_entries(&self.active_job_cache)
    }

    /// The active jobs that report to be running, with what is cached for them
    /// except the encoded plans, in no particular order.
    pub fn get_running_job_cache(&self) -> (running: Vec<(String, JobInfoCache)>)
        ensures
            maps::lists_active(running_jobs(self@.active), running@),
    {
        let entries = maps::active_entries(&self.active_job_cache);
        running_entries(entries, Ghost(self@.active))
    }

    /// The execution graph of an active job.
    pub fn get_active_execution_graph(&self, job_id: &str) -> (graph: Option<GraphId>)
        ensures
            graph == self@.graph_of(job_id@),
    {
        maps::active_graph(&self.active_job_cache, job_id)
    }

    /// Takes a job out of the active cache and returns its execution graph.
    pub fn remove_active_execution_graph(&mut self, job_id: &str) -> (graph: Option<GraphId>)
        ensures
            graph == old(self)@.graph_of(job_id@),
            final(self)@ == old(self)@.without_active(job_id@),
    {
        match maps::active_remove(&mut self.active_job_cache, job_id) {
            Some(entry) => Some(entry.1.graph()),
            None => None,
        }
    }

    /// The plan that is cached for a stage of an active job, if there is one;
    /// nothing if the job is not active.
    fn cached_plan(&mut self, job_id: &str, stage_id: usize) -> (cached: Option<Option<Vec<u8>>>)
        ensures
            final(self)@ == old(self)@,
            match cached {
                Some(cached) => {
                    let plans = old(self)@.active[job_id@].plans;
                    &&& old(self)@.active.contains_key(job_id@)
                    &&& match cached {
                        Some(plan) => plans.contains_key(stage_id) && plan@ == plans[stage_id],
                        None => !plans.contains_key(stage_id),
                    }
                },
                None => !old(self)@.active.contains_key(job_id@),
            },
    {
        match maps::active_remove(&mut self.active_job_cache, job_id) {
            Some(entry) => {
                let (key, info) = entry;
                let cached = info.cached_plan(stage_id);
                maps::active_insert(&mut self.active_job_cache, key, info);
                assert(self@.active =~= old(self)@.active);
                Some(cached)
            },
            None => {
                assert(self@.active =~= old(self)@.active);
                None
            },
        }
    }

    /// Caches the plan of a stage of an active job.
    fn keep_plan(&mut self, job_id: &str, stage_id: usize, plan: &Vec<u8>)
        requires
            old(self)@.active.contains_key(job_id@),
        ensures
            final(self)@ == old(self)@.with_active(
                job_id@,
                old(self)@.active[job_id@].with_plan(stage_id, plan@),
            ),
    {
        match maps::active_remove(&mut self.active_job_cache, job_id) {
            Some(entry) => {
                let (key, mut info) = entry;
                info.keep_plan(stage_id, plan);
                maps::active_insert(&mut self.active_job_cache, key, info);
                assert(self@.active =~= old(self)@.active.insert(
                    job_id@,
                    old(self)@.active[job_id@].with_plan(stage_id, plan@),
                ));
            },
            None => {},
        }
    }

    /// The encoded plan of a stage of an active job, or nothing if the job is
    /// not active. The job stays in the cache while the encoder runs.
    pub(crate) fn encode_active_plan<E, P, F: FnOnce(&P) -> Result<Vec<u8>, BallistaError<E>>>(
        &mut self,
        job_id: &str,
        stage_id: usize,
        plan: &P,
        encode: F,
    ) -> (encoded: Option<Result<Vec<u8>, BallistaError<E>>>)
        requires
            old(self)@.needs_plan(job_id@, stage_id) ==> encode.requires((plan,)),
        ensures
            match encoded {
                Some(encoded) => active_plan_encoded(
                    old(self)@,
                    final(self)@,
                    job_id@,
                    stage_id,
                    |given: Result<Vec<u8>, BallistaError<E>>| encode.ensures((plan,), given),
                    encoded,
                ),
                None => !old(self)@.active.contains_key(job_id@) && final(self)@ == old(self)@,
            },
    {
        let cached = match self.cached_plan(job_id, stage_id) {
            Some(cached) => cached,
            None => {
                return None;
            },
        };
        assert(old(self)@.active =~= old(self)@.active.insert(
            job_id@,
            old(self)@.active[job_id@],
        ));
        if !self.caches_plans {
            return Some(JobInfoCache::encode_stage_plan_uncached(plan, encode));
        }
        if let Some(bytes) = cached {
            return Some(Ok(bytes));
        }
        let encoded = JobInfoCache::encode_stage_plan_uncached(plan, encode);
        if let Ok(bytes) = &encoded {
            self.keep_plan(job_id, stage_id, bytes);
        }
        Some(encoded)
    }

    /// Puts a job in the active cache. Returns the graph that it replaces.
    pub(crate) fn cache_graph(&mut self, job_id: &str, graph: GraphId, status: &JobStatus) -> (
    replaced: Option<GraphId>)
        ensures
            replaced == old(self)@.graph_of(job_id@),
            final(self)@ == old(self)@.with_active(
                job_id@,
                JobInfo::published(graph, status.status),
            ),
    {
        let info = JobInfoCache::of_graph(graph, status);
        match maps::active_insert(&mut self.active_job_cache, job_id.to_owned(), info) {
            Some(earlier) => Some(earlier.graph()),
            None => None,
        }
    }
}

/// What it means to ask for the encoded plan of a stage of an active job: see
/// [`stage_plan_encoded`]. Only what is cached for that job can change. A
/// manager that does not cache plans gives what the encoder may give, and does
/// not change.
pub open spec fn active_plan_encoded<E>(
    before: Manager,
    after: Manager,
    job_id: Seq<char>,
    stage_id: usize,
    encodes: spec_fn(Result<Vec<u8>, BallistaError<E>>) -> bool,
    encoded: Result<Vec<u8>, BallistaError<E>>,
) -> bool {
    &&& before.active.contains_key(job_id)
    &&& if before.caches_plans {
        &&& after == before.with_active(job_id, after.active[job_id])
        &&& stage_plan_encoded(
            before.active[job_id],
            after.active[job_id],
            stage_id,
            encodes,
            encoded,
        )
    } else {
        &&& after == before
        &&& encodes(encoded)
    }
}

/// The jobs among `active` that report to be running.
pub open spec fn running_jobs(active: Map<Seq<char>, JobInfo>) -> Map<Seq<char>, JobInfo> {
    Map::new(
        |job_id: Seq<char>|
            active.contains_key(job_id) && is_running_status(active[job_id].status),
        |job_id: Seq<char>| active[job_id],
    )
}

/// Keeps the entries of running jobs.
fn running_entries(
    entries: Vec<(String, JobInfoCache)>,
    Ghost(active): Ghost<Map<Seq<char>, JobInfo>>,
) -> (running: Vec<(String, JobInfoCache)>)
    requires
        maps::lists_active(active, entries@),
    ensures
        maps::lists_active(running_jobs(active), running@),
{
    let ghost all = entries@;
    let mut running: Vec<(String, JobInfoCache)> = Vec::new();
    let ghost mut from: Seq<int> = seq![];
    for entry in it: entries
        invariant
            it.seq() == all,
            maps::lists_active(active, all),
            from.len() == running.len(),
            forall|k: int|
                0 <= k < from.len() ==> 0 <= #[trigger] from[k] < it.index() && running[k]
                    == all[from[k]] && is_running_status(all[from[k]].1@.status),
            forall|k: int, l: int| 0 <= k < l < from.len() ==> #[trigger] from[k] < #[trigger] from[l],
            forall|i: int|
                0 <= i < it.index() && is_running_status((#[trigger] all[i]).1@.status)
                    ==> from.contains(i),
    {
        let ghost earlier = from;
        if is_running(entry.1.status()) {
            running.push(entry);
            proof {
                from = from.push(it.index() as int);
                assert forall|i: int|
                    0 <= i <= it.index() && is_running_status(
                        (#[trigger] all[i]).1@.status,
                    ) implies from.contains(i) by {
                    if i < it.index() {
                        let k = choose|k: int| 0 <= k < earlier.len() && earlier[k] == i;
                        assert(from[k] == i);
                    } else {
                        assert(from[from.len() - 1] == i);
                    }
                }
            }
        }
    }
    proof {
        let kept = running_jobs(active);
        assert forall|k: int| 0 <= k < running.len() implies {
            &&& kept.contains_key(#[trigger] running[k].0@)
            &&& running[k].1@ == kept[running[k].0@].snapshot()
        } by {
            assert(active.contains_key(all[from[k]].0@));
        }
        assert forall|k: int, l: int| 0 <= k < l < running.len() implies #[trigger] running[k].0@
            != #[trigger] running[l].0@ by {
            assert(from[k] < from[l]);
        }
        assert forall|job_id: Seq<char>| #[trigger] kept.contains_key(job_id) implies exists|k: int|
            0 <= k < running.len() && #[trigger] running[k].0@ == job_id by {
            assert(active.contains_key(job_id));
            let i = choose|i: int| 0 <= i < all.len() && #[trigger] all[i].0@ == job_id;
            assert(from.contains(i));
            let k = choose|k: int| 0 <= k < from.len() && from[k] == i;
            assert(running[k].0@ == job_id);
        }
    }
    running
}

} // verus!
