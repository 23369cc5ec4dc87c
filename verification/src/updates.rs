//! What executors report: status updates of tasks, and their own loss.
use vstd::prelude::*;

use crate::cache::{JobInfo, JobInfoCache};
use crate::error::BallistaError;
use crate::graph::GraphId;
use crate::manager::{Manager, TaskManager};
use crate::maps;
use crate::tasks::{
    group_task_statuses, grouped_by_job, ExecutorMetadata, JobUpdates, TaskStatus, STAGE_MAX_FAILURES,
    TASK_MAX_FAILURES,
};

verus! {

/// What status updates lead to: events to publish, and metrics about the
/// changes in the lifecycle of stages and tasks. `V` is an event, `M` a metric.
#[derive(Debug, PartialEq, Eq)]
pub struct TaskStatusUpdateResult<V, M> {
    /// The events to publish.
    pub events: Vec<V>,
    /// The metrics of the changes.
    pub metrics: Vec<M>,
}

/// The mathematical counterpart of a [`TaskStatusUpdateResult`].
#[verifier::ext_equal]
pub struct UpdateSummary<V, M> {
    pub events: Seq<V>,
    pub metrics: Seq<M>,
}

impl<V, M> View for TaskStatusUpdateResult<V, M> {
    type V = UpdateSummary<V, M>;

    open spec fn view(&self) -> UpdateSummary<V, M> {
        UpdateSummary { events: self.events@, metrics: self.metrics@ }
    }
}

impl<V, M> UpdateSummary<V, M> {
    /// Nothing to publish, and nothing to count.
    pub open spec fn empty() -> UpdateSummary<V, M> {
        UpdateSummary { events: seq![], metrics: seq![] }
    }

    /// This summary with a later one behind it.
    pub open spec fn followed_by(self, later: UpdateSummary<V, M>) -> UpdateSummary<V, M> {
        UpdateSummary {
            events: self.events + later.events,
            metrics: self.metrics + later.metrics,
        }
    }
}

impl<V, M> Default for TaskStatusUpdateResult<V, M> {
    /// A result without events and metrics.
    fn default() -> (result: Self)
        ensures
            result@ == UpdateSummary::<V, M>::empty(),
    {
        let result = TaskStatusUpdateResult { events: Vec::new(), metrics: Vec::new() };
        assert(result@ =~= UpdateSummary::<V, M>::empty());
        result
    }
}

/// The status updates of one job have to be applied to its graph. `U` is an
/// update.
#[derive(Debug, PartialEq, Eq)]
pub struct ApplyingUpdates<U, V, M> {
    /// The executor that reports.
    pub executor: ExecutorMetadata,
    /// The job's graph.
    pub graph: GraphId,
    /// The updates to apply.
    pub updates: JobUpdates<U>,
    /// How often a task may fail.
    pub task_max_failures: usize,
    /// How often a stage may fail.
    pub stage_max_failures: usize,
    /// What follows.
    pub rest: RemainingUpdates<U, V, M>,
}

/// The status updates of one job are passed over, because the job is not
/// active.
#[derive(Debug, PartialEq, Eq)]
pub struct PassingOver<U, V, M> {
    /// The updates, which nobody takes.
    pub updates: JobUpdates<U>,
    /// What follows.
    pub rest: RemainingUpdates<U, V, M>,
}

/// The part of a round of status updates that waits for one job.
#[derive(Debug, PartialEq, Eq)]
pub struct RemainingUpdates<U, V, M> {
    /// The executor that reports.
    pub executor: ExecutorMetadata,
    /// The updates of other jobs, the next one last.
    pub remaining: Vec<JobUpdates<U>>,
    /// What the updates of the jobs that came before led to.
    pub combined: TaskStatusUpdateResult<V, M>,
}

/// What a round of status updates needs next.
#[derive(Debug, PartialEq, Eq)]
pub enum UpdateStatusesStep<E, U, V, M> {
    /// Apply the updates, then [`RemainingUpdates::applied`].
    Apply(ApplyingUpdates<U, V, M>),
    /// Note that the job is unknown, then [`RemainingUpdates::passed_over`].
    PassOver(PassingOver<U, V, M>),
    /// Nothing: this is the outcome.
    Finished(Result<TaskStatusUpdateResult<V, M>, BallistaError<E>>),
}

/// Whether a round of status updates goes on as it should when the updates of
/// `groups` are still to be applied: the last group is next. Its updates are
/// applied to the graph of their job, or passed over if the job is not active.
/// Without any group left the round ends.
pub open spec fn updates_on<E, U, V, M>(
    manager: Manager,
    executor: ExecutorMetadata,
    groups: Seq<JobUpdates<U>>,
    combined: UpdateSummary<V, M>,
    step: UpdateStatusesStep<E, U, V, M>,
) -> bool {
    if groups.len() == 0 {
        &&& step matches UpdateStatusesStep::Finished(Ok(result))
        &&& result@ == combined
    } else {
        match manager.graph_of(groups.last().job_id@) {
            Some(graph) => {
                &&& step matches UpdateStatusesStep::Apply(next)
                &&& next.executor == executor
                &&& next.graph == graph
                &&& next.updates == groups.last()
                &&& next.task_max_failures == TASK_MAX_FAILURES
                &&& next.stage_max_failures == STAGE_MAX_FAILURES
                &&& next.rest.executor == executor
                &&& next.rest.remaining@ == groups.drop_last()
                &&& next.rest.combined@ == combined
            },
            None => {
                &&& step matches UpdateStatusesStep::PassOver(next)
                &&& next.updates == groups.last()
                &&& next.rest.executor == executor
                &&& next.rest.remaining@ == groups.drop_last()
                &&& next.rest.combined@ == combined
            },
        }
    }
}

/// Whether a round of status updates goes on as it should once a graph has
/// answered: what its updates led to comes behind the rest. An error ends the
/// round.
pub open spec fn updates_applied<E, U, V, M>(
    manager: Manager,
    rest: RemainingUpdates<U, V, M>,
    answer: Result<TaskStatusUpdateResult<V, M>, BallistaError<E>>,
    step: UpdateStatusesStep<E, U, V, M>,
) -> bool {
    match answer {
        Ok(result) => updates_on(
            manager,
            rest.executor,
            rest.remaining@,
            rest.combined@.followed_by(result@),
            step,
        ),
        Err(error) => step == UpdateStatusesStep::<E, U, V, M>::Finished(Err(error)),
    }
}

/// Goes on with a round of status updates.
fn update_on<E, U, V, M>(
    manager: &TaskManager,
    executor: ExecutorMetadata,
    groups: Vec<JobUpdates<U>>,
    combined: TaskStatusUpdateResult<V, M>,
) -> (step: UpdateStatusesStep<E, U, V, M>)
    ensures
        updates_on(manager@, executor, groups@, combined@, step),
{
    let mut remaining = groups;
    match remaining.pop() {
        Some(updates) => match manager.get_active_execution_graph(updates.job_id.as_str()) {
            Some(graph) => UpdateStatusesStep::Apply(
                ApplyingUpdates {
                    executor: executor.clone(),
                    graph,
                    updates,
                    task_max_failures: TASK_MAX_FAILURES,
                    stage_max_failures: STAGE_MAX_FAILURES,
                    rest: RemainingUpdates { executor, remaining, combined },
                },
            ),
            None => UpdateStatusesStep::PassOver(
                PassingOver { updates, rest: RemainingUpdates { executor, remaining, combined } },
            ),
        },
        None => UpdateStatusesStep::Finished(Ok(combined)),
    }
}

impl<U, V, M> RemainingUpdates<U, V, M> {
    /// Takes what the updates of a job led to.
    pub fn applied<E>(
        self,
        manager: &TaskManager,
        answer: Result<TaskStatusUpdateResult<V, M>, BallistaError<E>>,
    ) -> (step: UpdateStatusesStep<E, U, V, M>)
        ensures
            updates_applied(manager@, self, answer, step),
    {
        match answer {
            Ok(result) => {
                let mut combined = self.combined;
                let mut result = result;
                combined.events.append(&mut result.events);
                combined.metrics.append(&mut result.metrics);
                update_on(manager, self.executor, self.remaining, combined)
            },
            Err(error) => UpdateStatusesStep::Finished(Err(error)),
        }
    }

    /// Goes on after the updates of a job that is not active.
    pub fn passed_over<E>(self, manager: &TaskManager) -> (step: UpdateStatusesStep<E, U, V, M>)
        ensures
            updates_on(manager@, self.executor, self.remaining@, self.combined@, step),
    {
        update_on(manager, self.executor, self.remaining, self.combined)
    }
}

/// What the loss of an executor did to one graph. `R` describes a running
/// task.
#[derive(Debug, PartialEq, Eq)]
pub struct GraphReset<R> {
    /// The stages that were reset or rolled back.
    pub stages: Vec<usize>,
    /// The running tasks of those stages.
    pub running_tasks: Vec<R>,
}

/// A graph has to reset the stages that ran on a lost executor.
#[derive(Debug, PartialEq, Eq)]
pub struct ResettingGraph<R> {
    /// The executor that was lost.
    pub executor_id: String,
    /// The graph.
    pub graph: GraphId,
    /// The graphs that come after it, the next one last.
    pub remaining: Vec<GraphId>,
    /// The running tasks to cancel in the graphs that came before it.
    pub running_tasks: Vec<R>,
}

/// What the loss of an executor needs next.
#[derive(Debug, PartialEq, Eq)]
pub enum ExecutorLostStep<E, R> {
    /// Reset the graph, then [`ResettingGraph::reset`].
    ResetGraph(ResettingGraph<R>),
    /// Nothing: this is the outcome, with the running tasks to cancel.
    Finished(Result<Vec<R>, BallistaError<E>>),
}

/// The running tasks that a reset leaves to be cancelled: none if no stage was
/// reset.
pub open spec fn cancelled_by<R>(reset: GraphReset<R>) -> Seq<R> {
    if reset.stages@.len() > 0 {
        reset.running_tasks@
    } else {
        seq![]
    }
}

/// Whether the handling of a lost executor goes on as it should when `graphs`
/// are still to be reset: the last of them is next, and without any the tasks
/// that were collected are the outcome.
pub open spec fn resets_on<E, R>(
    executor_id: Seq<char>,
    graphs: Seq<GraphId>,
    running_tasks: Seq<R>,
    step: ExecutorLostStep<E, R>,
) -> bool {
    if graphs.len() == 0 {
        &&& step matches ExecutorLostStep::Finished(Ok(tasks))
        &&& tasks@ == running_tasks
    } else {
        &&& step matches ExecutorLostStep::ResetGraph(next)
        &&& next.executor_id@ == executor_id
        &&& next.graph == graphs.last()
        &&& next.remaining@ == graphs.drop_last()
        &&& next.running_tasks@ == running_tasks
    }
}

/// Whether the handling of a lost executor goes on as it should once a graph
/// was reset. An error ends it.
pub open spec fn graph_reset<E, R>(
    at: ResettingGraph<R>,
    outcome: Result<GraphReset<R>, BallistaError<E>>,
    step: ExecutorLostStep<E, R>,
) -> bool {
    match outcome {
        Ok(reset) => resets_on(
            at.executor_id@,
            at.remaining@,
            at.running_tasks@ + cancelled_by(reset),
            step,
        ),
        Err(error) => step == ExecutorLostStep::<E, R>::Finished(Err(error)),
    }
}

/// Goes on with the handling of a lost executor.
fn reset_on<E, R>(executor_id: String, graphs: Vec<GraphId>, running_tasks: Vec<R>) -> (step:
    ExecutorLostStep<E, R>)
    ensures
        resets_on(executor_id@, graphs@, running_tasks@, step),
{
    let mut remaining = graphs;
    match remaining.pop() {
        Some(graph) => ExecutorLostStep::ResetGraph(
            ResettingGraph { executor_id, graph, remaining, running_tasks },
        ),
        None => ExecutorLostStep::Finished(Ok(running_tasks)),
    }
}

impl<R> ResettingGraph<R> {
    /// Takes what came of resetting the graph.
    pub fn reset<E>(self, outcome: Result<GraphReset<R>, BallistaError<E>>) -> (step:
        ExecutorLostStep<E, R>)
        ensures
            graph_reset(self, outcome, step),
    {
        match outcome {
            Ok(reset) => {
                let mut running_tasks = self.running_tasks;
                if reset.stages.len() > 0 {
                    let mut tasks = reset.running_tasks;
                    running_tasks.append(&mut tasks);
                } else {
                    assert(running_tasks@ + cancelled_by(reset) =~= running_tasks@);
                }
                reset_on(self.executor_id, self.remaining, running_tasks)
            },
            Err(error) => ExecutorLostStep::Finished(Err(error)),
        }
    }
}

/// The graphs of jobs, in the order of `entries`.
pub open spec fn graphs_of(entries: Seq<(String, JobInfoCache)>) -> Seq<GraphId> {
    entries.map_values(|entry: (String, JobInfoCache)| entry.1@.execution_graph)
}

/// Whether `graphs` holds the graph of every active job, once for each job.
pub open spec fn lists_graphs(active: Map<Seq<char>, JobInfo>, graphs: Seq<GraphId>) -> bool {
    exists|entries: Seq<(String, JobInfoCache)>| #[trigger]
        maps::lists_active(active, entries) && graphs == graphs_of(entries)
}

impl TaskManager {
    /// The graphs of all active jobs, in no particular order.
    pub fn active_graphs(&self) -> (graphs: Vec<GraphId>)
        ensures
            lists_graphs(self@.active, graphs@),
    {
        let entries = self.active_job_infos();
        let mut graphs: Vec<GraphId> = Vec::new();
        let mut i: usize = 0;
        while i < entries.len()
            invariant
                i <= entries.len(),
                graphs@ =~= graphs_of(entries@).take(i as int),
            decreases entries.len() - i,
        {
            graphs.push(entries[i].1.graph());
            i = i + 1;
        }
        assert(graphs_of(entries@).take(i as int) =~= graphs_of(entries@));
        graphs
    }

    /// Starts applying status updates of tasks to the graphs of their jobs.
    pub fn update_task_statuses<E, U, V, M>(
        &self,
        executor: &ExecutorMetadata,
        task_status: Vec<TaskStatus<U>>,
    ) -> (step: UpdateStatusesStep<E, U, V, M>)
        ensures
            exists|groups: Seq<JobUpdates<U>>| #[trigger]
                grouped_by_job(task_status@, groups) && updates_on(
                    self@,
                    *executor,
                    groups,
                    UpdateSummary::<V, M>::empty(),
                    step,
                ),
    {
        let groups = group_task_statuses(task_status);
        update_on(self, executor.clone(), groups, TaskStatusUpdateResult::default())
    }

    /// Starts resetting the graphs of all active jobs after an executor was
    /// lost.
    pub fn executor_lost<E, R>(&self, executor_id: &str) -> (step: ExecutorLostStep<E, R>)
        ensures
            exists|graphs: Seq<GraphId>| #[trigger]
                lists_graphs(self@.active, graphs) && resets_on(
                    executor_id@,
                    graphs,
                    Seq::<R>::empty(),
                    step,
                ),
    {
        let graphs = self.active_graphs();
        reset_on(executor_id.to_owned(), graphs, Vec::new())
    }
}

} // verus!
