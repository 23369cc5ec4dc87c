//! Promises of what is done with the reports of executors, and with their loss.
use vstd::prelude::*;

use crate::cache::{JobInfo, JobInfoCache};
use crate::error::BallistaError;
use crate::graph::GraphId;
use crate::laws::{
    collected, law_every_active_job_is_listed_once, law_executor_loss_collects_tasks,
    law_update_round_collects_results, round_runs, tasks_to_cancel, updates_at,
};
use crate::manager::{Manager, TaskManager};
use crate::maps::lists_active;
use crate::tasks::{
    group_task_statuses, grouped_by_job, of_job, ExecutorMetadata, JobUpdates, TaskStatus,
};
use crate::updates::{
    graph_reset, graphs_of, lists_graphs, resets_on, updates_on, ExecutorLostStep, GraphReset,
    RemainingUpdates, ResettingGraph, TaskStatusUpdateResult, UpdateStatusesStep, UpdateSummary,
};

verus! {

/// A default result has neither events nor metrics.
pub proof fn law_default_result_is_empty<V, M>(result: TaskStatusUpdateResult<V, M>)
    requires
        call_ensures(<TaskStatusUpdateResult<V, M> as Default>::default, (), result),
    ensures
        result.events@.len() == 0,
        result.metrics@.len() == 0,
{
}

/// Whether `statuses` are the updates of one job among `all`: all of them, in
/// the order in which they came, and no others.
pub open spec fn all_of_job<U>(
    all: Seq<TaskStatus<U>>,
    job_id: Seq<char>,
    statuses: Seq<TaskStatus<U>>,
) -> bool {
    statuses == all.filter(|status: TaskStatus<U>| status.job_id@ == job_id)
}

/// Whether some group is that of a job.
pub open spec fn has_group<U>(groups: Seq<JobUpdates<U>>, job_id: Seq<char>) -> bool {
    exists|g: int| 0 <= g < groups.len() && (#[trigger] groups[g]).job_id@ == job_id
}

/// Grouping gives one group for each job that has updates, with all of the job's
/// updates in the order in which they came, and no others.
pub proof fn law_groups_hold_all_updates<U>(
    task_status: Vec<TaskStatus<U>>,
    groups: Vec<JobUpdates<U>>,
    g: int,
    h: int,
    i: int,
)
    requires
        call_ensures(group_task_statuses::<U>, (task_status,), groups),
    ensures
        0 <= g < groups@.len() ==> {
            &&& groups@[g].statuses@.len() > 0
            &&& all_of_job(task_status@, groups@[g].job_id@, groups@[g].statuses@)
        },
        0 <= g < h < groups@.len() ==> groups@[g].job_id@ != groups@[h].job_id@,
        0 <= i < task_status@.len() ==> has_group(groups@, task_status@[i].job_id@),
{
    lemma_groups(task_status@, groups@);
}

/// The groups, said with a closure written out.
proof fn lemma_groups<U>(all: Seq<TaskStatus<U>>, groups: Seq<JobUpdates<U>>)
    requires
        grouped_by_job(all, groups),
    ensures
        forall|g: int|
            0 <= g < groups.len() ==> {
                &&& (#[trigger] groups[g]).statuses@.len() > 0
                &&& all_of_job(all, groups[g].job_id@, groups[g].statuses@)
            },
        forall|g: int, h: int|
            0 <= g < h < groups.len() ==> (#[trigger] groups[g]).job_id@ != (
            #[trigger] groups[h]).job_id@,
        forall|i: int|
            0 <= i < all.len() ==> has_group(groups, (#[trigger] all[i]).job_id@),
{
    assert forall|g: int| 0 <= g < groups.len() implies {
        &&& (#[trigger] groups[g]).statuses@.len() > 0
        &&& all_of_job(all, groups[g].job_id@, groups[g].statuses@)
    } by {
        let job_id = groups[g].job_id@;
        assert(of_job::<U>(job_id) =~= |status: TaskStatus<U>| status.job_id@ == job_id);
    }
    assert forall|i: int| 0 <= i < all.len() implies has_group(
        groups,
        (#[trigger] all[i]).job_id@,
    ) by {
        let status = all[i];
        let g = choose|g: int|
            0 <= g < groups.len() && (#[trigger] groups[g]).job_id@ == status.job_id@;
        assert(groups[g].job_id@ == status.job_id@);
    }
}

/// The part of a round that a step leaves for later.
pub open spec fn rest_at<E, U, V, M>(step: UpdateStatusesStep<E, U, V, M>) -> Option<
    RemainingUpdates<U, V, M>,
> {
    match step {
        UpdateStatusesStep::Apply(at) => Some(at.rest),
        UpdateStatusesStep::PassOver(at) => Some(at.rest),
        UpdateStatusesStep::Finished(_) => None,
    }
}

/// Whether a step takes the last of `groups` out and leaves the others: it
/// applies the group's updates to the graph of their job if the job is active,
/// with the limits of four failures, and passes them over if it is not.
pub open spec fn takes_last<E, U, V, M>(
    manager: Manager,
    executor: ExecutorMetadata,
    groups: Seq<JobUpdates<U>>,
    step: UpdateStatusesStep<E, U, V, M>,
) -> bool {
    let last = groups[groups.len() - 1];
    &&& updates_at(step) == Some(last)
    &&& step is Apply <==> manager.active.contains_key(last.job_id@)
    &&& (step matches UpdateStatusesStep::Apply(at) ==> {
        &&& at.graph == manager.active[last.job_id@].execution_graph
        &&& at.executor == executor
        &&& at.task_max_failures == 4
        &&& at.stage_max_failures == 4
    })
    &&& rest_at(step) matches Some(rest)
    &&& rest.executor == executor
    &&& rest.remaining@.push(last) == groups
}

/// What the updates of a job led to is kept whole: all its events come behind
/// the earlier events and all its metrics behind the earlier metrics, whatever
/// there is of each. The round ends if no group is left, and else takes the next
/// one.
pub proof fn law_applied_result_is_kept_whole<E, U, V, M>(
    at: RemainingUpdates<U, V, M>,
    manager: TaskManager,
    result: TaskStatusUpdateResult<V, M>,
    step: UpdateStatusesStep<E, U, V, M>,
)
    requires
        call_ensures(
            RemainingUpdates::<U, V, M>::applied::<E>,
            (at, &manager, Ok::<TaskStatusUpdateResult<V, M>, BallistaError<E>>(result)),
            step,
        ),
    ensures
        at.remaining@.len() == 0 ==> {
            &&& step matches UpdateStatusesStep::Finished(Ok(combined))
            &&& combined.events@ == at.combined.events@ + result.events@
            &&& combined.metrics@ == at.combined.metrics@ + result.metrics@
        },
        at.remaining@.len() > 0 ==> {
            &&& takes_last(manager@, at.executor, at.remaining@, step)
            &&& rest_at(step) matches Some(rest)
            &&& rest.combined.events@ == at.combined.events@ + result.events@
            &&& rest.combined.metrics@ == at.combined.metrics@ + result.metrics@
        },
{
    if at.remaining@.len() > 0 {
        assert(at.remaining@.drop_last().push(at.remaining@.last()) =~= at.remaining@);
    }
}

/// A job that is passed over adds nothing and takes nothing away.
pub proof fn law_passed_over_job_changes_nothing<E, U, V, M>(
    at: RemainingUpdates<U, V, M>,
    manager: TaskManager,
    step: UpdateStatusesStep<E, U, V, M>,
)
    requires
        call_ensures(RemainingUpdates::<U, V, M>::passed_over::<E>, (at, &manager), step),
    ensures
        at.remaining@.len() == 0 ==> {
            &&& step matches UpdateStatusesStep::Finished(Ok(combined))
            &&& combined.events@ == at.combined.events@
            &&& combined.metrics@ == at.combined.metrics@
        },
        at.remaining@.len() > 0 ==> {
            &&& takes_last(manager@, at.executor, at.remaining@, step)
            &&& rest_at(step) matches Some(rest)
            &&& rest.combined.events@ == at.combined.events@
            &&& rest.combined.metrics@ == at.combined.metrics@
        },
{
    if at.remaining@.len() > 0 {
        assert(at.remaining@.drop_last().push(at.remaining@.last()) =~= at.remaining@);
    }
}

/// A graph that answers with an error ends the round with that error.
pub proof fn law_error_ends_the_round<E, U, V, M>(
    at: RemainingUpdates<U, V, M>,
    manager: TaskManager,
    error: BallistaError<E>,
    step: UpdateStatusesStep<E, U, V, M>,
)
    requires
        call_ensures(
            RemainingUpdates::<U, V, M>::applied::<E>,
            (at, &manager, Err::<TaskStatusUpdateResult<V, M>, BallistaError<E>>(error)),
            step,
        ),
    ensures
        step == UpdateStatusesStep::<E, U, V, M>::Finished(Err(error)),
{
}

/// A round of status updates starts with all updates of one job, and leaves
/// those of the other jobs for later, each job's together and complete; nothing
/// is combined yet. Without updates it ends with nothing.
pub proof fn law_round_starts_with_all_updates<E, U, V, M>(
    manager: TaskManager,
    executor: ExecutorMetadata,
    task_status: Vec<TaskStatus<U>>,
    step: UpdateStatusesStep<E, U, V, M>,
)
    requires
        call_ensures(
            TaskManager::update_task_statuses::<E, U, V, M>,
            (&manager, &executor, task_status),
            step,
        ),
    ensures
        task_status@.len() == 0 ==> {
            &&& step matches UpdateStatusesStep::Finished(Ok(combined))
            &&& combined.events@.len() == 0
            &&& combined.metrics@.len() == 0
        },
        task_status@.len() > 0 ==> {
            &&& updates_at(step) matches Some(updates)
            &&& rest_at(step) matches Some(rest)
            &&& rest.combined.events@.len() == 0
            &&& rest.combined.metrics@.len() == 0
            &&& takes_last(manager@, executor, rest.remaining@.push(updates), step)
            &&& holds_all(task_status@, rest.remaining@.push(updates))
        },
{
    let groups = choose|groups: Seq<JobUpdates<U>>| #[trigger]
        grouped_by_job(task_status@, groups) && updates_on(
            manager@,
            executor,
            groups,
            UpdateSummary::<V, M>::empty(),
            step,
        );
    lemma_groups(task_status@, groups);
    if task_status@.len() == 0 {
        if groups.len() > 0 {
            assert(all_of_job(task_status@, groups[0].job_id@, groups[0].statuses@));
            reveal(Seq::filter);
        }
    } else {
        assert(has_group(groups, task_status@[0].job_id@));
        assert(groups.drop_last().push(groups.last()) =~= groups);
        assert(holds_all(task_status@, groups));
    }
}

/// Whether `groups` holds all of `all`, by job: each group has all updates of its
/// job in their order, each job has one group, and each update's job has one.
pub open spec fn holds_all<U>(all: Seq<TaskStatus<U>>, groups: Seq<JobUpdates<U>>) -> bool {
    &&& forall|g: int|
        0 <= g < groups.len() ==> {
            &&& (#[trigger] groups[g]).statuses@.len() > 0
            &&& all_of_job(all, groups[g].job_id@, groups[g].statuses@)
        }
    &&& forall|g: int, h: int|
        0 <= g < h < groups.len() ==> (#[trigger] groups[g]).job_id@ != (#[trigger] groups[h]).job_id@
    &&& forall|i: int| 0 <= i < all.len() ==> has_group(groups, (#[trigger] all[i]).job_id@)
}

/// The events of a finished round are the events of all graphs that were asked,
/// one list behind the other and each list whole, whatever the metrics are; and
/// the metrics likewise, whatever the events are.
pub proof fn law_round_keeps_every_event<E, U, V, M>(
    managers: Seq<Manager>,
    executor: ExecutorMetadata,
    groups: Seq<JobUpdates<U>>,
    answers: Seq<TaskStatusUpdateResult<V, M>>,
    steps: Seq<UpdateStatusesStep<E, U, V, M>>,
)
    requires
        round_runs(managers, executor, groups, answers, steps),
    ensures
        steps.last() matches UpdateStatusesStep::Finished(Ok(result)) && {
            &&& result.events@ == Seq::new(
                groups.len(),
                |i: int|
                    if steps[i] is Apply {
                        answers[i].events@
                    } else {
                        Seq::<V>::empty()
                    },
            ).flatten()
            &&& result.metrics@ == Seq::new(
                groups.len(),
                |i: int|
                    if steps[i] is Apply {
                        answers[i].metrics@
                    } else {
                        Seq::<M>::empty()
                    },
            ).flatten()
        },
        forall|i: int|
            0 <= i < groups.len() ==> (#[trigger] steps[i] is Apply
                <==> managers[i].active.contains_key(groups[groups.len() - 1 - i].job_id@)),
{
    law_update_round_collects_results(managers, executor, groups, answers, steps);
    lemma_collected(steps, answers, groups.len());
    assert forall|i: int| 0 <= i < groups.len() implies (#[trigger] steps[i] is Apply
        <==> managers[i].active.contains_key(groups[groups.len() - 1 - i].job_id@)) by {
        lemma_turn(managers, executor, groups, answers, steps, i);
    }
}

/// The group whose turn it is after some steps of a round.
proof fn lemma_turn<E, U, V, M>(
    managers: Seq<Manager>,
    executor: ExecutorMetadata,
    groups: Seq<JobUpdates<U>>,
    answers: Seq<TaskStatusUpdateResult<V, M>>,
    steps: Seq<UpdateStatusesStep<E, U, V, M>>,
    at: int,
)
    requires
        round_runs(managers, executor, groups, answers, steps),
        0 <= at < groups.len(),
    ensures
        takes_last(managers[at], executor, groups.take(groups.len() - at), steps[at]),
        steps[at] is Apply <==> managers[at].active.contains_key(
            groups[groups.len() - 1 - at].job_id@,
        ),
{
    crate::laws::lemma_round_at(managers, executor, groups, answers, steps, at);
    let left = groups.take(groups.len() - at);
    assert(left.drop_last().push(left.last()) =~= left);
    assert(left[left.len() - 1] == groups[groups.len() - 1 - at]);
}

/// What the first steps of a round led to, as flattened lists.
proof fn lemma_collected<E, U, V, M>(
    steps: Seq<UpdateStatusesStep<E, U, V, M>>,
    answers: Seq<TaskStatusUpdateResult<V, M>>,
    n: nat,
)
    ensures
        collected(steps, answers, n as int).events == Seq::new(
            n,
            |i: int|
                if steps[i] is Apply {
                    answers[i].events@
                } else {
                    Seq::<V>::empty()
                },
        ).flatten(),
        collected(steps, answers, n as int).metrics == Seq::new(
            n,
            |i: int|
                if steps[i] is Apply {
                    answers[i].metrics@
                } else {
                    Seq::<M>::empty()
                },
        ).flatten(),
    decreases n,
{
    let events = |i: int|
        if steps[i] is Apply {
            answers[i].events@
        } else {
            Seq::<V>::empty()
        };
    let metrics = |i: int|
        if steps[i] is Apply {
            answers[i].metrics@
        } else {
            Seq::<M>::empty()
        };
    if n == 0 {
        assert(Seq::new(0, events).flatten() =~= Seq::<V>::empty());
        assert(Seq::new(0, metrics).flatten() =~= Seq::<M>::empty());
    } else {
        let m = (n - 1) as nat;
        lemma_collected(steps, answers, m);
        assert(Seq::new(n, events) =~= Seq::new(m, events).push(events(n - 1)));
        assert(Seq::new(n, metrics) =~= Seq::new(m, metrics).push(metrics(n - 1)));
        Seq::new(m, events).lemma_flatten_push(events(n - 1));
        Seq::new(m, metrics).lemma_flatten_push(metrics(n - 1));
        assert(collected(steps, answers, n as int).events =~= collected(
            steps,
            answers,
            n - 1,
        ).events + events(n - 1));
        assert(collected(steps, answers, n as int).metrics =~= collected(
            steps,
            answers,
            n - 1,
        ).metrics + metrics(n - 1));
    }
}

/// Whether `graphs` are the graphs of the active jobs, one for each job.
pub open spec fn graph_of_each(active: Map<Seq<char>, JobInfo>, graphs: Seq<GraphId>) -> bool {
    exists|job_ids: Seq<Seq<char>>|
        {
            &&& #[trigger] job_ids.no_duplicates()
            &&& job_ids.to_set() == active.dom()
            &&& graphs.len() == job_ids.len()
            &&& forall|i: int|
                0 <= i < graphs.len() ==> #[trigger] graphs[i] == active[job_ids[i]].execution_graph
        }
}

/// The graphs of the active jobs, said with their jobs.
proof fn lemma_graphs(active: Map<Seq<char>, JobInfo>, graphs: Seq<GraphId>)
    requires
        lists_graphs(active, graphs),
    ensures
        graph_of_each(active, graphs),
        graphs.len() == active.dom().len(),
{
    let entries = choose|entries: Seq<(String, JobInfoCache)>| #[trigger]
        lists_active(active, entries) && graphs == graphs_of(entries);
    law_every_active_job_is_listed_once(active, entries);
    let job_ids = entries.map_values(|entry: (String, JobInfoCache)| entry.0@);
    assert forall|i: int, j: int|
        0 <= i < job_ids.len() && 0 <= j < job_ids.len() && i != j implies job_ids[i]
        != job_ids[j] by {
        assert(job_ids[i] == entries[i].0@ && job_ids[j] == entries[j].0@);
    }
    assert(job_ids.no_duplicates());
    assert forall|job_id: Seq<char>| job_ids.to_set().contains(job_id) == active.dom().contains(
        job_id,
    ) by {
        if active.contains_key(job_id) {
            let i = choose|i: int| 0 <= i < entries.len() && #[trigger] entries[i].0@ == job_id;
            assert(job_ids[i] == job_id);
        }
        if job_ids.contains(job_id) {
            let i = choose|i: int| 0 <= i < job_ids.len() && job_ids[i] == job_id;
            assert(active.contains_key(entries[i].0@));
        }
    }
    assert(job_ids.to_set() =~= active.dom());
    assert forall|i: int| 0 <= i < graphs.len() implies #[trigger] graphs[i]
        == active[job_ids[i]].execution_graph by {
        assert(active.contains_key(entries[i].0@));
    }
}

/// The graphs of the active jobs are listed, one for each job.
pub proof fn law_every_active_graph_is_listed(manager: TaskManager, graphs: Vec<GraphId>)
    requires
        call_ensures(TaskManager::active_graphs, (&manager,), graphs),
    ensures
        graph_of_each(manager@.active, graphs@),
        graphs@.len() == manager@.active.dom().len(),
{
    lemma_graphs(manager@.active, graphs@);
}

/// After an executor was lost the graphs of all active jobs are reset, one for
/// each job: one is next and the others are kept for later, with the executor's
/// name, and no task is collected yet. Without an active job there is nothing to
/// cancel.
pub proof fn law_loss_resets_every_graph<E, R>(
    manager: TaskManager,
    executor_id: &str,
    step: ExecutorLostStep<E, R>,
)
    requires
        call_ensures(TaskManager::executor_lost::<E, R>, (&manager, executor_id), step),
    ensures
        manager@.active.dom().len() == 0 ==> {
            &&& step matches ExecutorLostStep::Finished(Ok(tasks))
            &&& tasks@.len() == 0
        },
        manager@.active.dom().len() > 0 ==> {
            &&& step matches ExecutorLostStep::ResetGraph(next)
            &&& next.executor_id@ == executor_id@
            &&& next.running_tasks@.len() == 0
            &&& next.remaining@.len() + 1 == manager@.active.dom().len()
            &&& graph_of_each(manager@.active, next.remaining@.push(next.graph))
        },
{
    let graphs = choose|graphs: Seq<GraphId>| #[trigger]
        lists_graphs(manager@.active, graphs) && resets_on(
            executor_id@,
            graphs,
            Seq::<R>::empty(),
            step,
        );
    lemma_graphs(manager@.active, graphs);
    if graphs.len() > 0 {
        assert(graphs.drop_last().push(graphs.last()) =~= graphs);
    }
}

/// The running tasks of a graph in which any stage was reset, however many, come
/// behind the tasks that were collected before, all of them; nothing comes of a
/// graph in which none was. The next graph is asked, and without one the tasks
/// are the outcome.
pub proof fn law_reset_graph_adds_its_tasks<E, R>(
    at: ResettingGraph<R>,
    reset: GraphReset<R>,
    step: ExecutorLostStep<E, R>,
)
    requires
        call_ensures(
            ResettingGraph::<R>::reset::<E>,
            (at, Ok::<GraphReset<R>, BallistaError<E>>(reset)),
            step,
        ),
    ensures
        ({
            let tasks = if reset.stages@.len() > 0 {
                at.running_tasks@ + reset.running_tasks@
            } else {
                at.running_tasks@
            };
            if at.remaining@.len() == 0 {
                &&& step matches ExecutorLostStep::Finished(Ok(collected))
                &&& collected@ == tasks
            } else {
                &&& step matches ExecutorLostStep::ResetGraph(next)
                &&& next.executor_id@ == at.executor_id@
                &&& next.remaining@.push(next.graph) == at.remaining@
                &&& next.running_tasks@ == tasks
            }
        }),
{
    if at.remaining@.len() > 0 {
        assert(at.remaining@.drop_last().push(at.remaining@.last()) =~= at.remaining@);
    }
    assert(at.running_tasks@ + Seq::<R>::empty() =~= at.running_tasks@);
}

/// A graph that cannot be reset ends the handling of the loss with its error.
pub proof fn law_reset_error_ends_the_loss<E, R>(
    at: ResettingGraph<R>,
    error: BallistaError<E>,
    step: ExecutorLostStep<E, R>,
)
    requires
        call_ensures(
            ResettingGraph::<R>::reset::<E>,
            (at, Err::<GraphReset<R>, BallistaError<E>>(error)),
            step,
        ),
    ensures
        step == ExecutorLostStep::<E, R>::Finished(Err(error)),
{
}

/// When every graph was reset, the outcome is the running tasks of the graphs in
/// which at least one stage was reset, one list behind the other, each whole.
pub proof fn law_loss_cancels_every_task<E, R>(
    executor_id: Seq<char>,
    graphs: Seq<GraphId>,
    resets: Seq<GraphReset<R>>,
    steps: Seq<ExecutorLostStep<E, R>>,
)
    requires
        resets.len() == graphs.len(),
        steps.len() == graphs.len() + 1,
        resets_on(executor_id, graphs, Seq::<R>::empty(), steps[0]),
        forall|i: int|
            0 <= i < resets.len() ==> (#[trigger] steps[i] matches ExecutorLostStep::ResetGraph(at)
                ==> graph_reset(
                at,
                Ok::<GraphReset<R>, BallistaError<E>>(resets[i]),
                steps[i + 1],
            )),
    ensures
        steps.last() matches ExecutorLostStep::Finished(Ok(tasks)) && tasks@ == Seq::new(
            resets.len(),
            |i: int|
                if resets[i].stages@.len() > 0 {
                    resets[i].running_tasks@
                } else {
                    Seq::<R>::empty()
                },
        ).flatten(),
{
    law_executor_loss_collects_tasks(executor_id, graphs, resets, steps);
    lemma_tasks_to_cancel(resets);
}

/// The tasks to cancel, as a flattened list.
proof fn lemma_tasks_to_cancel<R>(resets: Seq<GraphReset<R>>)
    ensures
        tasks_to_cancel(resets) == Seq::new(
            resets.len(),
            |i: int|
                if resets[i].stages@.len() > 0 {
                    resets[i].running_tasks@
                } else {
                    Seq::<R>::empty()
                },
        ).flatten(),
    decreases resets.len(),
{
    let lists = |resets: Seq<GraphReset<R>>|
        Seq::new(
            resets.len(),
            |i: int|
                if resets[i].stages@.len() > 0 {
                    resets[i].running_tasks@
                } else {
                    Seq::<R>::empty()
                },
        );
    if resets.len() == 0 {
        assert(lists(resets).flatten() =~= Seq::<R>::empty());
    } else {
        let shorter = resets.drop_last();
        lemma_tasks_to_cancel(shorter);
        let last = if resets.last().stages@.len() > 0 {
            resets.last().running_tasks@
        } else {
            Seq::<R>::empty()
        };
        assert(lists(resets) =~= lists(shorter).push(last));
        lists(shorter).lemma_flatten_push(last);
        assert(tasks_to_cancel(resets) =~= tasks_to_cancel(shorter) + last);
    }
}

} // verus!
