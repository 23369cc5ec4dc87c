//! Promises of what the manager keeps: active jobs, controls and plans.
use vstd::prelude::*;

use datafusion::error::DataFusionError;
use datafusion_proto::protobuf::PhysicalPlanNode;

use crate::cache::JobInfoCache;
use crate::encoding::{encode_plan, encodes_node};
use crate::error::{of_collaborator, BallistaError};
use crate::graph::{ExecutionGraph, GraphId};
use crate::laws::law_every_active_job_is_listed_once;
use crate::lifecycle::LifecycleId;
use crate::manager::{TaskManager, UpdatedStages};
use crate::status::{copy_status, is_failed, is_running, is_terminal, FailedJob, JobStatus, Status};

verus! {

/// A new manager works for the given scheduler and knows of no job and of no
/// control; whether it caches plans is decided by how it is made.
pub proof fn law_new_manager_is_empty(
    scheduler_id: String,
    manager: TaskManager,
    uncached: TaskManager,
    job_id: Seq<char>,
)
    requires
        call_ensures(TaskManager::new, (scheduler_id,), manager),
        call_ensures(TaskManager::without_plan_cache, (scheduler_id,), uncached),
    ensures
        manager@.scheduler_id == scheduler_id@,
        uncached@.scheduler_id == scheduler_id@,
        manager@.caches_plans,
        !uncached@.caches_plans,
        !manager@.active.contains_key(job_id),
        !uncached@.active.contains_key(job_id),
        !manager@.controls.contains_key(job_id),
        !uncached@.controls.contains_key(job_id),
{
}

/// The manager tells the scheduler that it works for.
pub proof fn law_scheduler_is_told(manager: TaskManager, scheduler_id: String)
    requires
        call_ensures(TaskManager::scheduler_id, (&manager,), &scheduler_id),
    ensures
        scheduler_id@ == manager@.scheduler_id,
{
}

/// A job keeps the control that it has, and else gets the fresh one; the control
/// that is returned is the job's. No other control and no active job changes.
pub proof fn law_job_keeps_its_control(
    manager: &mut TaskManager,
    job_id: &str,
    fresh: LifecycleId,
    lifecycle: LifecycleId,
    other: Seq<char>,
)
    requires
        call_ensures(TaskManager::job_lifecycle, (manager, job_id, fresh), lifecycle),
    ensures
        lifecycle == if old(manager)@.controls.contains_key(job_id@) {
            old(manager)@.controls[job_id@]
        } else {
            fresh
        },
        final(manager)@.controls.contains_key(job_id@),
        final(manager)@.controls[job_id@] == lifecycle,
        other != job_id@ ==> {
            &&& final(manager)@.controls.contains_key(other) <==> old(
                manager,
            )@.controls.contains_key(other)
            &&& final(manager)@.controls.contains_key(other) ==> final(manager)@.controls[other]
                == old(manager)@.controls[other]
        },
        final(manager)@.active == old(manager)@.active,
        final(manager)@.scheduler_id == old(manager)@.scheduler_id,
        final(manager)@.caches_plans == old(manager)@.caches_plans,
{
}

/// The control that is found is the job's, and one is found if the job has one.
pub proof fn law_control_is_found(
    manager: TaskManager,
    job_id: &str,
    lifecycle: Option<LifecycleId>,
)
    requires
        call_ensures(TaskManager::find_lifecycle, (&manager, job_id), lifecycle),
    ensures
        lifecycle is Some <==> manager@.controls.contains_key(job_id@),
        lifecycle matches Some(found) ==> found == manager@.controls[job_id@],
{
}

/// A control is released if and only if it is the job's; else nothing changes.
pub proof fn law_only_the_jobs_control_is_released(
    manager: &mut TaskManager,
    job_id: &str,
    lifecycle: LifecycleId,
    released: bool,
    other: Seq<char>,
)
    requires
        call_ensures(TaskManager::release_lifecycle, (manager, job_id, lifecycle), released),
    ensures
        released <==> old(manager)@.controls.contains_key(job_id@) && old(
            manager,
        )@.controls[job_id@] == lifecycle,
        released ==> !final(manager)@.controls.contains_key(job_id@),
        !released ==> final(manager)@ == old(manager)@,
        other != job_id@ ==> {
            &&& final(manager)@.controls.contains_key(other) <==> old(
                manager,
            )@.controls.contains_key(other)
            &&& final(manager)@.controls.contains_key(other) ==> final(manager)@.controls[other]
                == old(manager)@.controls[other]
        },
        final(manager)@.active == old(manager)@.active,
{
}

/// A job that the job state accepted has a control afterwards: the one that it
/// had, or else the fresh one. A refusal is handed on and changes nothing.
pub proof fn law_accepted_job_has_a_control<E>(
    manager: &mut TaskManager,
    job_id: &str,
    fresh: LifecycleId,
    accepted: Result<(), BallistaError<E>>,
    queued: Result<LifecycleId, BallistaError<E>>,
    other: Seq<char>,
)
    requires
        call_ensures(TaskManager::queue_job::<E>, (manager, job_id, fresh, accepted), queued),
    ensures
        accepted is Ok ==> {
            &&& queued matches Ok(lifecycle)
            &&& lifecycle == if old(manager)@.controls.contains_key(job_id@) {
                old(manager)@.controls[job_id@]
            } else {
                fresh
            }
            &&& final(manager)@.controls.contains_key(job_id@)
            &&& final(manager)@.controls[job_id@] == lifecycle
        },
        accepted matches Err(error) ==> {
            &&& queued matches Err(given)
            &&& given == error
            &&& final(manager)@ == old(manager)@
        },
        other != job_id@ ==> {
            &&& final(manager)@.controls.contains_key(other) <==> old(
                manager,
            )@.controls.contains_key(other)
            &&& final(manager)@.controls.contains_key(other) ==> final(manager)@.controls[other]
                == old(manager)@.controls[other]
        },
        final(manager)@.active == old(manager)@.active,
{
}

/// The number of running jobs is the number of active ones.
pub proof fn law_active_jobs_are_counted(manager: TaskManager, count: usize)
    requires
        call_ensures(TaskManager::running_job_number, (&manager,), count),
    ensures
        count == manager@.active.dom().len(),
{
}

/// The graph that is found for a job is the one that it is active with, and one
/// is found if the job is active.
pub proof fn law_active_graph_is_found(
    manager: TaskManager,
    job_id: &str,
    graph: Option<GraphId>,
)
    requires
        call_ensures(TaskManager::get_active_execution_graph, (&manager, job_id), graph),
    ensures
        graph is Some <==> manager@.active.contains_key(job_id@),
        graph matches Some(found) ==> found == manager@.active[job_id@].execution_graph,
{
}

/// A job that is taken out is not active any more, and its graph is handed out;
/// no other job and no control changes.
pub proof fn law_removed_job_is_not_active(
    manager: &mut TaskManager,
    job_id: &str,
    graph: Option<GraphId>,
    other: Seq<char>,
)
    requires
        call_ensures(TaskManager::remove_active_execution_graph, (manager, job_id), graph),
    ensures
        graph is Some <==> old(manager)@.active.contains_key(job_id@),
        graph matches Some(found) ==> found == old(manager)@.active[job_id@].execution_graph,
        !final(manager)@.active.contains_key(job_id@),
        other != job_id@ ==> {
            &&& final(manager)@.active.contains_key(other) <==> old(
                manager,
            )@.active.contains_key(other)
            &&& final(manager)@.active.contains_key(other) ==> final(manager)@.active[other]
                == old(manager)@.active[other]
        },
        final(manager)@.controls == old(manager)@.controls,
{
}

/// The list of active jobs has each active job once, with its graph and status
/// and without plans.
pub proof fn law_active_jobs_are_listed(
    manager: TaskManager,
    entries: Vec<(String, JobInfoCache)>,
    job_id: Seq<char>,
    i: int,
    j: int,
)
    requires
        call_ensures(TaskManager::active_job_infos, (&manager,), entries),
    ensures
        entries@.len() == manager@.active.dom().len(),
        manager@.active.contains_key(job_id) <==> exists|k: int|
            0 <= k < entries@.len() && #[trigger] entries@[k].0@ == job_id,
        0 <= i < entries@.len() ==> {
            let info = manager@.active[entries@[i].0@];
            &&& entries@[i].1@.execution_graph == info.execution_graph
            &&& entries@[i].1@.status == info.status
            &&& entries@[i].1@.plans.dom() == Set::<usize>::empty()
        },
        0 <= i < j < entries@.len() ==> entries@[i].0@ != entries@[j].0@,
{
    law_every_active_job_is_listed_once(manager@.active, entries@);
    if 0 <= i < entries@.len() {
        assert(manager@.active.contains_key(entries@[i].0@));
    }
}

/// The list of running jobs has each active job once that reports to be running,
/// and no other, with its graph and status and without plans.
pub proof fn law_running_jobs_are_listed(
    manager: TaskManager,
    running: Vec<(String, JobInfoCache)>,
    job_id: Seq<char>,
    i: int,
    j: int,
)
    requires
        call_ensures(TaskManager::get_running_job_cache, (&manager,), running),
    ensures
        (manager@.active.contains_key(job_id) && (manager@.active[job_id].status matches Some(
            Status::Running(_),
        ))) <==> exists|k: int| 0 <= k < running@.len() && #[trigger] running@[k].0@ == job_id,
        0 <= i < running@.len() ==> {
            let info = manager@.active[running@[i].0@];
            &&& running@[i].1@.execution_graph == info.execution_graph
            &&& running@[i].1@.status == info.status
            &&& running@[i].1@.plans.dom() == Set::<usize>::empty()
        },
        0 <= i < j < running@.len() ==> running@[i].0@ != running@[j].0@,
{
    let kept = crate::manager::running_jobs(manager@.active);
    assert forall|k: int| 0 <= k < running@.len() implies kept.contains_key(
        #[trigger] running@[k].0@,
    ) by {}
    if 0 <= i < running@.len() {
        assert(kept.contains_key(running@[i].0@));
    }
    if manager@.active.contains_key(job_id) && (manager@.active[job_id].status matches Some(
        Status::Running(_),
    )) {
        assert(kept.contains_key(job_id));
    }
}

/// What is cached of a job is its graph and the state that the graph reports,
/// without any plan; a copy is the same without plans.
pub proof fn law_cached_job_has_graph_and_status(
    graph: ExecutionGraph,
    info: JobInfoCache,
    copied: JobInfoCache,
    copy: JobInfoCache,
)
    requires
        call_ensures(JobInfoCache::new, (&graph,), info),
        call_ensures(<JobInfoCache as Clone>::clone, (&copied,), copy),
    ensures
        info@.execution_graph == graph.id,
        info@.status == graph.status.status,
        info@.plans.dom() == Set::<usize>::empty(),
        copy@.execution_graph == copied@.execution_graph,
        copy@.status == copied@.status,
        copy@.plans.dom() == Set::<usize>::empty(),
{
}

/// The graph and the status that are read off are the cached ones.
pub proof fn law_cached_job_is_read(info: JobInfoCache, graph: GraphId, status: Option<Status>)
    requires
        call_ensures(JobInfoCache::graph, (&info,), graph),
        call_ensures(JobInfoCache::status, (&info,), &status),
    ensures
        graph == info@.execution_graph,
        status == info@.status,
{
}

/// A cached plan is given again, whatever the encoder would give, and nothing
/// changes.
pub proof fn law_cached_plan_is_given<
    E,
    P,
    F: FnOnce(&P) -> Result<Vec<u8>, BallistaError<E>>,
>(
    info: &mut JobInfoCache,
    stage_id: usize,
    plan: P,
    encode: F,
    encoded: Result<Vec<u8>, BallistaError<E>>,
)
    requires
        call_ensures(
            JobInfoCache::encode_stage_plan::<E, P, F>,
            (info, stage_id, &plan, encode),
            encoded,
        ),
        old(info)@.plans.contains_key(stage_id),
    ensures
        encoded matches Ok(bytes) && bytes@ == old(info)@.plans[stage_id],
        final(info)@ == old(info)@,
{
}

/// A plan that is not cached is what the encoder gives of it; it is cached for
/// its stage, and only if it was given. Nothing else changes.
pub proof fn law_new_plan_is_cached<
    E,
    P,
    F: FnOnce(&P) -> Result<Vec<u8>, BallistaError<E>>,
>(
    info: &mut JobInfoCache,
    stage_id: usize,
    plan: P,
    encode: F,
    encoded: Result<Vec<u8>, BallistaError<E>>,
    other: usize,
)
    requires
        call_ensures(
            JobInfoCache::encode_stage_plan::<E, P, F>,
            (info, stage_id, &plan, encode),
            encoded,
        ),
        !old(info)@.plans.contains_key(stage_id),
    ensures
        call_ensures(encode, (&plan,), encoded),
        final(info)@.plans.contains_key(stage_id) <==> encoded is Ok,
        encoded matches Ok(bytes) ==> final(info)@.plans[stage_id] == bytes@,
        other != stage_id ==> {
            &&& final(info)@.plans.contains_key(other) <==> old(info)@.plans.contains_key(other)
            &&& final(info)@.plans.contains_key(other) ==> final(info)@.plans[other] == old(
                info,
            )@.plans[other]
        },
        final(info)@.execution_graph == old(info)@.execution_graph,
        final(info)@.status == old(info)@.status,
{
}

/// Without the cache a plan is what the encoder gives of it.
pub proof fn law_uncached_plan_is_encoded<
    E,
    P,
    F: FnOnce(&P) -> Result<Vec<u8>, BallistaError<E>>,
>(plan: P, encode: F, encoded: Result<Vec<u8>, BallistaError<E>>)
    requires
        call_ensures(JobInfoCache::encode_stage_plan_uncached::<E, P, F>, (&plan, encode), encoded),
    ensures
        call_ensures(encode, (&plan,), encoded),
{
}

/// A plan that came through is sent as one of its encodings, and fails only if
/// none of them fits in memory; a plan that did not come through is an error, and
/// the same one.
pub proof fn law_plan_is_sent_encoded(
    plan: Result<PhysicalPlanNode, DataFusionError>,
    encoded: Result<Vec<u8>, BallistaError<DataFusionError>>,
    other: Seq<u8>,
)
    requires
        call_ensures(encode_plan, (plan,), encoded),
    ensures
        encoded matches Err(error) ==> error is Other,
        plan matches Err(error) ==> (encoded matches Err(BallistaError::Other(given)) && given
            == error),
        plan is Ok && encoded is Ok ==> encodes_node(plan->Ok_0, encoded->Ok_0@),
        plan is Ok && encoded is Err && encodes_node(plan->Ok_0, other) ==> other.len()
            > isize::MAX,
{
}

/// A collaborator's outcome is kept: its value, or its error.
pub proof fn law_collaborators_outcome_is_kept<T, E>(
    outcome: Result<T, E>,
    own: Result<T, BallistaError<E>>,
)
    requires
        call_ensures(of_collaborator::<T, E>, (outcome,), own),
    ensures
        outcome is Ok <==> own is Ok,
        outcome is Ok ==> own->Ok_0 == outcome->Ok_0,
        outcome is Err ==> (own->Err_0 matches BallistaError::Other(error) && error
            == outcome->Err_0),
{
}

/// A job is done exactly when it reports success or failure, runs exactly when it
/// reports to be running, and has failed exactly when it reports failure.
pub proof fn law_states_are_told_apart(
    status: Option<Status>,
    terminal: bool,
    running: bool,
    job: Option<JobStatus>,
    failed: bool,
)
    requires
        call_ensures(is_terminal, (&status,), terminal),
        call_ensures(is_running, (&status,), running),
        call_ensures(is_failed, (&job,), failed),
    ensures
        terminal <==> status is Some && (status->Some_0 is Successful || status->Some_0 is Failed),
        running <==> status is Some && status->Some_0 is Running,
        failed <==> job is Some && job->Some_0.status is Some && job->Some_0.status->Some_0
            is Failed,
{
}

/// Copies of statuses are the same as what was copied.
pub proof fn law_copies_are_the_same(
    status: Option<Status>,
    status_copy: Option<Status>,
    state: Status,
    state_copy: Status,
    failed: FailedJob,
    failed_copy: FailedJob,
    job: JobStatus,
    job_copy: JobStatus,
)
    requires
        call_ensures(copy_status, (&status,), status_copy),
        call_ensures(<Status as Clone>::clone, (&state,), state_copy),
        call_ensures(<FailedJob as Clone>::clone, (&failed,), failed_copy),
        call_ensures(<JobStatus as Clone>::clone, (&job,), job_copy),
    ensures
        status_copy == status,
        state_copy == state,
        failed_copy == failed,
        job_copy == job,
{
}

/// A copy of stage changes holds the same stages, messages and reasons.
pub proof fn law_copied_stage_changes_are_the_same(stages: UpdatedStages, copy: UpdatedStages)
    requires
        call_ensures(<UpdatedStages as Clone>::clone, (&stages,), copy),
    ensures
        copy.resolved_stages@ == stages.resolved_stages@,
        copy.successful_stages@ == stages.successful_stages@,
        copy.failed_stages@ == stages.failed_stages@,
        copy.rollback_running_stages@ == stages.rollback_running_stages@,
        copy.resubmit_successful_stages@ == stages.resubmit_successful_stages@,
{
}

} // verus!
