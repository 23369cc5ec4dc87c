//! Promises of what can be asked: which calls are accepted, and what they need
//! of the encoder and of the clock.
use vstd::prelude::*;

use crate::abort::{
    AwaitingPublication, CheckingPublication, ConfirmingFailure, FailingActive, FailingUnscheduled,
    SavingFailed, UnqueueingAborted,
};
use crate::cache::JobInfoCache;
use crate::error::BallistaError;
use crate::graph::{ExecutionGraph, GraphId};
use crate::jobs::{
    job_id_of, CheckingCompletion, CountingPending, Listing, SavingCompletion, UpdatingJob,
};
use crate::lifecycle::{JobLifecycleControl, LifecycleId};
use crate::manager::TaskManager;
use crate::progress::{stage_rows, stage_snapshot, ExecutionStage, ReadingProgress};
use crate::status::JobStatus;
use crate::submission::{
    FailingGraph, Notifying, Persisting, Planning, Reviving, SubmitRequest, Unqueueing,
};
use crate::tasks::{
    define_task, define_tasks, group_task_statuses, ExecutorMetadata, TaskDescription, TaskStatus,
};
use crate::updates::{GraphReset, RemainingUpdates, ResettingGraph, TaskStatusUpdateResult};

verus! {

/// The plan of a stage is encoded at most once: where it is cached the encoder is
/// not called, and the request is accepted even if the encoder takes nothing.
pub proof fn law_cached_plan_needs_no_encoder<
    E,
    P,
    F: FnOnce(&P) -> Result<Vec<u8>, BallistaError<E>>,
>(info: &mut JobInfoCache, stage_id: usize, plan: P, encode: F)
    requires
        old(info)@.plans.contains_key(stage_id) || call_requires(encode, (&plan,)),
    ensures
        call_requires(
            JobInfoCache::encode_stage_plan::<E, P, F>,
            (old(info), stage_id, &plan, encode),
        ),
{
}

/// Without the cache a plan can be asked for whenever the encoder takes it.
pub proof fn law_encoder_is_enough<E, P, F: FnOnce(&P) -> Result<Vec<u8>, BallistaError<E>>>(
    plan: P,
    encode: F,
)
    requires
        call_requires(encode, (&plan,)),
    ensures
        call_requires(JobInfoCache::encode_stage_plan_uncached::<E, P, F>, (&plan, encode)),
{
}

/// Preparing a task calls the clock only if the job is active, and the encoder
/// only if besides the plan is not cached, or plans are not cached at all. Every
/// task can be prepared.
pub proof fn law_task_needs_encoder_for_new_plan<
    E,
    P,
    F: FnOnce(&P) -> Result<Vec<u8>, BallistaError<E>>,
    C: FnOnce() -> u64,
>(manager: &mut TaskManager, task: TaskDescription<P>, encode: F, clock: C)
    requires
        old(manager)@.active.contains_key(task.partition.job_id@) ==> {
            let plans = old(manager)@.active[task.partition.job_id@].plans;
            &&& call_requires(clock, ())
            &&& (old(manager)@.caches_plans && plans.contains_key(task.partition.stage_id))
                || call_requires(encode, (&task.plan,))
        },
    ensures
        call_requires(
            TaskManager::prepare_task_definition::<E, P, F, C>,
            (old(manager), task, encode, clock),
        ),
{
}

/// Whether the tasks of a stage can be prepared: as for one task, with the first
/// task standing for all. Without tasks nothing is needed.
pub open spec fn can_prepare<E, P, F: Fn(&P) -> Result<Vec<u8>, BallistaError<E>>, C: Fn() -> u64>(
    manager: TaskManager,
    tasks: Seq<TaskDescription<P>>,
    encode: F,
    clock: C,
) -> bool {
    let first = tasks[0].partition;
    tasks.len() > 0 && manager@.active.contains_key(first.job_id@) ==> {
        let plans = manager@.active[first.job_id@].plans;
        &&& call_requires(clock, ())
        &&& (manager@.caches_plans && plans.contains_key(first.stage_id)) || call_requires(
            encode,
            (&tasks[0].plan,),
        )
    }
}

/// Preparing the tasks of a stage needs the clock and the encoder no more than
/// preparing the first of them does, and nothing if there are none.
pub proof fn law_tasks_need_encoder_for_new_plan<
    E,
    P,
    F: Fn(&P) -> Result<Vec<u8>, BallistaError<E>>,
    C: Fn() -> u64,
>(manager: &mut TaskManager, tasks: Vec<TaskDescription<P>>, encode: F, clock: C)
    requires
        can_prepare(*old(manager), tasks@, encode, clock),
    ensures
        call_requires(
            TaskManager::prepare_multi_task_definition::<E, P, F, C>,
            (old(manager), tasks, encode, clock),
        ),
{
}

/// A launch needs the clock and the encoder no more than preparing its stages in
/// the state in which the launch finds the manager does.
pub proof fn law_launch_needs_encoder_for_new_plans<
    E,
    P,
    F: Fn(&P) -> Result<Vec<u8>, BallistaError<E>>,
    C: Fn() -> u64,
>(
    manager: &mut TaskManager,
    executor: ExecutorMetadata,
    tasks: Vec<Vec<TaskDescription<P>>>,
    encode: F,
    clock: C,
)
    requires
        forall|i: int|
            0 <= i < tasks@.len() ==> can_prepare(
                *old(manager),
                (#[trigger] tasks@[i])@,
                encode,
                clock,
            ),
    ensures
        call_requires(
            TaskManager::launch_multi_task::<E, P, F, C>,
            (old(manager), &executor, tasks, encode, clock),
        ),
{
    assert(forall|i: int| 0 <= i < tasks.len() ==> #[trigger] tasks[i] == tasks@[i]);
}

/// Any count that fits behind the earlier ones is taken, and a graph that could
/// not be read always is.
pub proof fn law_every_fitting_count_is_taken(at: CountingPending, count: Option<usize>)
    requires
        count matches Some(tasks) ==> at.total + tasks <= usize::MAX,
    ensures
        call_requires(CountingPending::counted, (at, count)),
{
}

/// The new tasks of a job can be told unless there are fewer than before; an
/// error of saving always can.
pub proof fn law_every_growth_is_told<E>(
    at: UpdatingJob,
    before: usize,
    outcome: Result<(), BallistaError<E>>,
    after: usize,
)
    requires
        outcome is Ok ==> before <= after,
    ensures
        call_requires(UpdatingJob::saved::<E>, (at, before, outcome, after)),
{
}

/// Any number of tasks but none can be defined together, and any task alone.
pub proof fn law_every_task_can_be_defined<P>(
    task: TaskDescription<P>,
    tasks: Vec<TaskDescription<P>>,
    plan: Vec<u8>,
    launch_time: u64,
)
    requires
        tasks@.len() > 0,
    ensures
        call_requires(define_task::<P>, (task, plan, launch_time)),
        call_requires(define_tasks::<P>, (tasks, plan, launch_time)),
{
}

/// A control can be used in every phase.
pub proof fn law_control_is_usable_in_every_phase(
    control: &mut JobLifecycleControl,
    shared: JobLifecycleControl,
    reason: String,
)
    ensures
        call_requires(JobLifecycleControl::abort_reason, (&shared,)),
        call_requires(JobLifecycleControl::is_publishing, (&shared,)),
        call_requires(JobLifecycleControl::begin_publication, (old(control),)),
        call_requires(JobLifecycleControl::withdraw_publication, (old(control),)),
        call_requires(JobLifecycleControl::publish, (old(control),)),
        call_requires(JobLifecycleControl::finish_publication, (old(control),)),
        call_requires(JobLifecycleControl::tombstone, (old(control), &reason)),
{
}

/// A submission can start whatever the control says, and goes on whatever came of
/// a step.
pub proof fn law_submission_goes_on<E>(
    manager: &mut TaskManager,
    control: &mut JobLifecycleControl,
    request: SubmitRequest,
    planning: Planning,
    plan: Result<GraphId, BallistaError<E>>,
    unqueueing: Unqueueing,
    notifying: Notifying,
    persisting: Persisting,
    reviving: Reviving,
    status: JobStatus,
    failing: FailingGraph,
    outcome: Result<(), BallistaError<E>>,
)
    ensures
        call_requires(TaskManager::submit_job::<E>, (&*old(manager), &*old(control), request)),
        call_requires(Planning::planned::<E>, (planning, old(control), plan)),
        call_requires(Unqueueing::unqueued::<E>, (unqueueing, outcome)),
        call_requires(Notifying::notified::<E>, (notifying,)),
        call_requires(Persisting::persisted::<E>, (persisting, old(control), outcome)),
        call_requires(Reviving::revived::<E>, (reviving, old(manager), old(control), &status)),
        call_requires(FailingGraph::saved::<E>, (failing, outcome)),
{
}

/// An abort can start whatever the control says, and goes on whatever came of a
/// step.
pub proof fn law_abort_goes_on<E, R>(
    manager: &mut TaskManager,
    control: &mut JobLifecycleControl,
    job_id: &str,
    lifecycle: LifecycleId,
    reason: String,
    active: FailingActive,
    running_tasks: Vec<R>,
    pending_tasks: usize,
    saving: SavingFailed<R>,
    unqueueing: UnqueueingAborted,
    checking: CheckingPublication,
    awaiting: AwaitingPublication,
    confirming: ConfirmingFailure,
    unscheduled: FailingUnscheduled,
    outcome: Result<(), BallistaError<E>>,
    flag: bool,
    status: Result<Option<JobStatus>, BallistaError<E>>,
)
    ensures
        call_requires(
            TaskManager::abort_job::<E, R>,
            (old(manager), old(control), job_id, reason),
        ),
        call_requires(TaskManager::cancel_job::<E, R>, (old(manager), old(control), job_id)),
        call_requires(
            TaskManager::fail_unscheduled_job,
            (old(control), lifecycle, job_id, reason),
        ),
        call_requires(FailingActive::failed::<E, R>, (active, running_tasks, pending_tasks)),
        call_requires(SavingFailed::<R>::saved::<E>, (saving, outcome)),
        call_requires(UnqueueingAborted::unqueued::<E, R>, (unqueueing, outcome)),
        call_requires(CheckingPublication::read::<E, R>, (checking, flag)),
        call_requires(AwaitingPublication::changed::<E, R>, (awaiting, flag)),
        call_requires(ConfirmingFailure::read::<E, R>, (confirming, status)),
        call_requires(FailingUnscheduled::unqueued::<E>, (unscheduled, old(manager), outcome)),
{
}

/// What the manager keeps can be asked for and changed of every job, known or
/// not.
pub proof fn law_every_job_can_be_named<E>(
    manager: &mut TaskManager,
    job_id: &str,
    lifecycle: LifecycleId,
    accepted: Result<(), BallistaError<E>>,
    job_ids: Vec<String>,
    interval: u64,
)
    ensures
        call_requires(TaskManager::job_lifecycle, (old(manager), job_id, lifecycle)),
        call_requires(TaskManager::find_lifecycle, (&*old(manager), job_id)),
        call_requires(TaskManager::release_lifecycle, (old(manager), job_id, lifecycle)),
        call_requires(TaskManager::queue_job::<E>, (old(manager), job_id, lifecycle, accepted)),
        call_requires(TaskManager::get_active_execution_graph, (&*old(manager), job_id)),
        call_requires(TaskManager::remove_active_execution_graph, (old(manager), job_id)),
        call_requires(TaskManager::get_job_status, (&*old(manager), job_id)),
        call_requires(TaskManager::get_job_execution_graph, (&*old(manager), job_id)),
        call_requires(TaskManager::get_available_task_count, (&*old(manager), job_id)),
        call_requires(TaskManager::get_jobs::<E>, (&*old(manager), job_ids)),
        call_requires(TaskManager::succeed_job::<E>, (old(manager), job_id)),
        call_requires(TaskManager::update_job, (&*old(manager), job_id)),
        call_requires(TaskManager::job_cleaned_up::<E>, (old(manager), job_id, &accepted)),
        call_requires(TaskManager::clean_up_job_delayed, (interval,)),
{
}

/// Every manager can be asked about all its jobs.
pub proof fn law_every_manager_answers(manager: TaskManager, samples: Vec<u8>)
    ensures
        call_requires(TaskManager::scheduler_id, (&manager,)),
        call_requires(TaskManager::running_job_number, (&manager,)),
        call_requires(TaskManager::active_job_infos, (&manager,)),
        call_requires(TaskManager::get_running_job_cache, (&manager,)),
        call_requires(TaskManager::active_graphs, (&manager,)),
        call_requires(TaskManager::total_pending_tasks, (&manager,)),
        call_requires(TaskManager::capture_progress_snapshot, (&manager,)),
        call_requires(TaskManager::generate_job_id, ()),
        call_requires(job_id_of, (&samples,)),
{
}

/// Listing, completing and looking at jobs goes on whatever was read or came of
/// a step.
pub proof fn law_reading_goes_on<E, T>(
    manager: TaskManager,
    listing: Listing,
    graph: Result<Option<ExecutionGraph>, BallistaError<E>>,
    checking: CheckingCompletion,
    successful: bool,
    saving: SavingCompletion,
    outcome: Result<(), BallistaError<E>>,
    reading: ReadingProgress,
    stages: Vec<(usize, ExecutionStage<T>)>,
    read: Option<Vec<(usize, ExecutionStage<T>)>>,
    stage_id: usize,
    stage: ExecutionStage<T>,
)
    ensures
        call_requires(Listing::graph_read::<E>, (listing, &manager, graph)),
        call_requires(CheckingCompletion::checked::<E>, (checking, successful)),
        call_requires(SavingCompletion::saved::<E>, (saving, outcome)),
        call_requires(ReadingProgress::read::<T>, (reading, read)),
        call_requires(stage_rows::<T>, (&stages,)),
        call_requires(stage_snapshot::<T>, (stage_id, &stage)),
{
}

/// Any reports of an executor are taken, and so is its loss; handling them goes
/// on whatever came of a step.
pub proof fn law_reports_are_taken<E, U, V, M, R>(
    manager: TaskManager,
    executor: ExecutorMetadata,
    statuses: Vec<TaskStatus<U>>,
    executor_id: &str,
    rest: RemainingUpdates<U, V, M>,
    answer: Result<TaskStatusUpdateResult<V, M>, BallistaError<E>>,
    resetting: ResettingGraph<R>,
    reset: Result<GraphReset<R>, BallistaError<E>>,
)
    ensures
        call_requires(group_task_statuses::<U>, (statuses,)),
        call_requires(
            TaskManager::update_task_statuses::<E, U, V, M>,
            (&manager, &executor, statuses),
        ),
        call_requires(RemainingUpdates::<U, V, M>::applied::<E>, (rest, &manager, answer)),
        call_requires(RemainingUpdates::<U, V, M>::passed_over::<E>, (rest, &manager)),
        call_requires(TaskManager::executor_lost::<E, R>, (&manager, executor_id)),
        call_requires(ResettingGraph::<R>::reset::<E>, (resetting, reset)),
{
}

} // verus!
