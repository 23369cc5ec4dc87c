//! Promises of reading, completing, updating and cleaning up jobs.
use vstd::prelude::*;

use crate::error::BallistaError;
use crate::graph::{ExecutionGraph, JobOverview};
use crate::jobs::{
    job_id_of, listing_read, lists_on, CheckingCompletion, GraphSource, Listing, ListingStep,
    SavingCompletion, SucceedStep, TaskCountStep, UpdateStep, UpdatingJob,
};
use crate::laws::{law_listing_is_complete, listing_at};
use crate::lifecycle::LifecycleId;
use crate::manager::{Manager, TaskManager};

verus! {

/// Whether an overview agrees with a graph, field by field.
pub open spec fn agrees(overview: JobOverview, graph: ExecutionGraph) -> bool {
    &&& overview.job_id == graph.job_id
    &&& overview.job_name == graph.job_name
    &&& overview.status == graph.status
    &&& overview.start_time == graph.start_time
    &&& overview.end_time == graph.end_time
    &&& overview.num_stages == graph.stage_count
    &&& overview.completed_stages == graph.completed_stages
}

/// An overview shows what its graph says, whatever state the job is in.
pub proof fn law_overview_agrees_with_its_graph(graph: ExecutionGraph, overview: JobOverview)
    requires
        call_ensures(<JobOverview as From<&ExecutionGraph>>::from, (&graph,), overview),
    ensures
        overview.job_id == graph.job_id,
        overview.job_name == graph.job_name,
        overview.status == graph.status,
        overview.start_time == graph.start_time,
        overview.end_time == graph.end_time,
        overview.num_stages == graph.stage_count,
        overview.completed_stages == graph.completed_stages,
{
}

/// Each overview in a finished listing agrees with the graph that was read for
/// its job, in the order of reading.
pub proof fn law_listed_overviews_agree<E>(
    managers: Seq<Manager>,
    job_ids: Seq<String>,
    graphs: Seq<ExecutionGraph>,
    steps: Seq<ListingStep<E>>,
)
    requires
        managers.len() == job_ids.len() + 1,
        graphs.len() == job_ids.len(),
        steps.len() == job_ids.len() + 1,
        lists_on(managers[0], job_ids, Seq::empty(), steps[0]),
        forall|i: int|
            0 <= i < graphs.len() ==> (listing_at(#[trigger] steps[i]) matches Some(listing)
                ==> listing_read(
                managers[i + 1],
                listing,
                Ok::<Option<ExecutionGraph>, BallistaError<E>>(Some(graphs[i])),
                steps[i + 1],
            )),
    ensures
        steps.last() matches ListingStep::Finished(Ok(overviews)) && {
            &&& overviews@.len() == job_ids.len()
            &&& forall|i: int|
                0 <= i < overviews@.len() ==> {
                    let overview = #[trigger] overviews@[i];
                    &&& overview.job_id == graphs[i].job_id
                    &&& overview.job_name == graphs[i].job_name
                    &&& overview.status == graphs[i].status
                    &&& overview.start_time == graphs[i].start_time
                    &&& overview.end_time == graphs[i].end_time
                    &&& overview.num_stages == graphs[i].stage_count
                    &&& overview.completed_stages == graphs[i].completed_stages
                }
        },
{
    law_listing_is_complete(managers, job_ids, graphs, steps);
}

/// Listing no job gives no overview.
pub proof fn law_listing_no_job_is_empty<E>(
    manager: TaskManager,
    job_ids: Vec<String>,
    step: ListingStep<E>,
)
    requires
        call_ensures(TaskManager::get_jobs::<E>, (&manager, job_ids), step),
        job_ids@.len() == 0,
    ensures
        step matches ListingStep::Finished(Ok(overviews)) && overviews@.len() == 0,
{
}

/// Listing jobs starts by asking for the graph of one of them: of the active
/// cache if the job is active, and else of the job state. The other jobs are
/// kept for later, and no overview is made yet.
pub proof fn law_listing_asks_for_a_graph<E>(
    manager: TaskManager,
    job_ids: Vec<String>,
    step: ListingStep<E>,
)
    requires
        call_ensures(TaskManager::get_jobs::<E>, (&manager, job_ids), step),
        job_ids@.len() > 0,
    ensures
        manager@.active.contains_key(job_ids@.last()@) <==> step is ReadActive,
        step matches ListingStep::ReadActive(graph, listing) ==> graph
            == manager@.active[listing.job_id@].execution_graph,
        listing_at(step) matches Some(listing) && {
            &&& listing.remaining@.push(listing.job_id) == job_ids@
            &&& listing.overviews@.len() == 0
        },
{
    assert(job_ids@.drop_last().push(job_ids@.last()) =~= job_ids@);
}

/// A graph that was read adds one overview, which agrees with it, behind the
/// others. The listing ends if no job is left, and else asks for the graph of
/// the next one where it is.
pub proof fn law_read_graph_adds_its_overview<E>(
    at: Listing,
    manager: TaskManager,
    graph: ExecutionGraph,
    step: ListingStep<E>,
)
    requires
        call_ensures(
            Listing::graph_read::<E>,
            (at, &manager, Ok::<Option<ExecutionGraph>, BallistaError<E>>(Some(graph))),
            step,
        ),
    ensures
        at.remaining@.len() == 0 ==> {
            &&& step matches ListingStep::Finished(Ok(overviews))
            &&& overviews@.len() == at.overviews@.len() + 1
            &&& overviews@.take(at.overviews@.len() as int) == at.overviews@
            &&& agrees(overviews@[at.overviews@.len() as int], graph)
        },
        at.remaining@.len() > 0 ==> {
            &&& step is ReadActive <==> manager@.active.contains_key(at.remaining@.last()@)
            &&& (step matches ListingStep::ReadActive(id, listing) ==> id
                == manager@.active[listing.job_id@].execution_graph)
            &&& listing_at(step) matches Some(listing)
            &&& listing.remaining@.push(listing.job_id) == at.remaining@
            &&& listing.overviews@.len() == at.overviews@.len() + 1
            &&& listing.overviews@.take(at.overviews@.len() as int) == at.overviews@
            &&& agrees(listing.overviews@[at.overviews@.len() as int], graph)
        },
{
    if at.remaining@.len() > 0 {
        assert(at.remaining@.drop_last().push(at.remaining@.last()) =~= at.remaining@);
        let listing = listing_at(step)->Some_0;
        assert(listing.overviews@.take(at.overviews@.len() as int) =~= at.overviews@);
    } else {
        let overviews = step->Finished_0->Ok_0;
        assert(overviews@.take(at.overviews@.len() as int) =~= at.overviews@);
    }
}

/// A job without a graph ends the listing with an error that names it, and a
/// failure to read ends it with that error.
pub proof fn law_missing_graph_ends_the_listing<E>(
    at: Listing,
    manager: TaskManager,
    graph: Result<Option<ExecutionGraph>, BallistaError<E>>,
    step: ListingStep<E>,
)
    requires
        call_ensures(Listing::graph_read::<E>, (at, &manager, graph), step),
        !(graph matches Ok(Some(_))),
    ensures
        graph is Ok ==> {
            &&& step matches ListingStep::Finished(Err(BallistaError::Internal(text)))
            &&& text@ == "Error getting job overview, no execution graph found for job "@
                + at.job_id@ + ""@
        },
        graph matches Err(error) ==> (step matches ListingStep::Finished(Err(given)) && given
            == error),
{
}

/// The status and the graph of a job are read off its active graph if the job is
/// active, and else looked up in the job state. So are its available tasks, of
/// which a job that is not active has none.
pub proof fn law_active_graph_comes_first(
    manager: TaskManager,
    job_id: &str,
    of_status: GraphSource,
    of_graph: GraphSource,
    of_tasks: TaskCountStep,
)
    requires
        call_ensures(TaskManager::get_job_status, (&manager, job_id), of_status),
        call_ensures(TaskManager::get_job_execution_graph, (&manager, job_id), of_graph),
        call_ensures(TaskManager::get_available_task_count, (&manager, job_id), of_tasks),
    ensures
        manager@.active.contains_key(job_id@) ==> {
            let graph = manager@.active[job_id@].execution_graph;
            &&& of_status == GraphSource::Active(graph)
            &&& of_graph == GraphSource::Active(graph)
            &&& of_tasks == TaskCountStep::CountTasks(graph)
        },
        !manager@.active.contains_key(job_id@) ==> {
            &&& of_status is Stored
            &&& of_graph is Stored
            &&& of_tasks == TaskCountStep::Finished(0)
        },
{
}

/// Completing a job takes it out of the active cache; its graph is checked if
/// there was one, and else nothing is left to do. No other job and no control
/// changes.
pub proof fn law_completed_job_leaves_the_cache<E>(
    manager: &mut TaskManager,
    job_id: &str,
    step: SucceedStep<E>,
    other: Seq<char>,
)
    requires
        call_ensures(TaskManager::succeed_job::<E>, (manager, job_id), step),
    ensures
        !final(manager)@.active.contains_key(job_id@),
        other != job_id@ ==> {
            &&& final(manager)@.active.contains_key(other) <==> old(
                manager,
            )@.active.contains_key(other)
            &&& final(manager)@.active.contains_key(other) ==> final(manager)@.active[other]
                == old(manager)@.active[other]
        },
        final(manager)@.controls == old(manager)@.controls,
        final(manager)@.scheduler_id == old(manager)@.scheduler_id,
        final(manager)@.caches_plans == old(manager)@.caches_plans,
        old(manager)@.active.contains_key(job_id@) ==> {
            &&& step matches SucceedStep::CheckGraph(next)
            &&& next.job_id@ == job_id@
            &&& next.graph == old(manager)@.active[job_id@].execution_graph
        },
        !old(manager)@.active.contains_key(job_id@) ==> step == SucceedStep::<E>::Finished(Ok(())),
{
}

/// A graph is saved as completed if and only if it is successful, and then the
/// outcome of saving is the outcome; any other graph is left alone.
pub proof fn law_only_successful_graphs_are_saved<E>(
    checking: CheckingCompletion,
    successful: bool,
    step: SucceedStep<E>,
    saving: SavingCompletion,
    outcome: Result<(), BallistaError<E>>,
    last: SucceedStep<E>,
)
    requires
        call_ensures(CheckingCompletion::checked::<E>, (checking, successful), step),
        call_ensures(SavingCompletion::saved::<E>, (saving, outcome), last),
    ensures
        successful ==> {
            &&& step matches SucceedStep::SaveGraph(next)
            &&& next.job_id == checking.job_id
            &&& next.graph == checking.graph
        },
        !successful ==> step == SucceedStep::<E>::Finished(Ok(())),
        last == SucceedStep::<E>::Finished(outcome),
{
}

/// Updating an active job revives its graph; a job that is not active has no new
/// tasks.
pub proof fn law_only_active_jobs_are_updated(
    manager: TaskManager,
    job_id: &str,
    step: UpdateStep,
)
    requires
        call_ensures(TaskManager::update_job, (&manager, job_id), step),
    ensures
        manager@.active.contains_key(job_id@) ==> {
            &&& step matches UpdateStep::ReviveGraph(next)
            &&& next.job_id@ == job_id@
            &&& next.graph == manager@.active[job_id@].execution_graph
        },
        !manager@.active.contains_key(job_id@) ==> step == UpdateStep::Finished(0),
{
}

/// The tasks that became available make up the difference between what was
/// available before and after; an error of saving is handed on.
pub proof fn law_new_tasks_make_the_difference<E>(
    at: UpdatingJob,
    before: usize,
    outcome: Result<(), BallistaError<E>>,
    after: usize,
    new_tasks: Result<usize, BallistaError<E>>,
)
    requires
        call_ensures(UpdatingJob::saved::<E>, (at, before, outcome, after), new_tasks),
    ensures
        outcome is Ok ==> (new_tasks matches Ok(count) && before + count == after),
        outcome matches Err(error) ==> (new_tasks matches Err(given) && given == error),
{
}

/// A failed job is cleaned up after the whole interval, unless the interval is 0.
pub proof fn law_clean_up_waits_the_interval(interval: u64, delay: Option<u64>)
    requires
        call_ensures(TaskManager::clean_up_job_delayed, (interval,), delay),
    ensures
        delay is None <==> interval == 0,
        delay matches Some(seconds) ==> seconds == interval,
{
}

/// A job that was removed from the job state loses its control, which is handed
/// out; else nothing changes. No other control and no active job changes.
pub proof fn law_removed_job_loses_its_control<E>(
    manager: &mut TaskManager,
    job_id: &str,
    outcome: Result<(), BallistaError<E>>,
    released: Option<LifecycleId>,
    other: Seq<char>,
)
    requires
        call_ensures(TaskManager::job_cleaned_up::<E>, (manager, job_id, &outcome), released),
    ensures
        released is Some <==> outcome is Ok && old(manager)@.controls.contains_key(job_id@),
        released matches Some(lifecycle) ==> lifecycle == old(manager)@.controls[job_id@],
        outcome is Ok ==> !final(manager)@.controls.contains_key(job_id@),
        outcome is Err ==> final(manager)@ == old(manager)@,
        other != job_id@ ==> {
            &&& final(manager)@.controls.contains_key(other) <==> old(
                manager,
            )@.controls.contains_key(other)
            &&& final(manager)@.controls.contains_key(other) ==> final(manager)@.controls[other]
                == old(manager)@.controls[other]
        },
        final(manager)@.active == old(manager)@.active,
        final(manager)@.scheduler_id == old(manager)@.scheduler_id,
        final(manager)@.caches_plans == old(manager)@.caches_plans,
{
}

/// A job identifier is seven ASCII letters and digits.
pub proof fn law_job_id_is_seven_letters_and_digits(job_id: String, i: int)
    requires
        call_ensures(TaskManager::generate_job_id, (), job_id),
    ensures
        job_id@.len() == 7,
        0 <= i < 7 ==> {
            let c = job_id@[i];
            'a' <= c <= 'z' || 'A' <= c <= 'Z' || '0' <= c <= '9'
        },
{
}

/// A job identifier spells what was drawn, in the order of drawing.
pub proof fn law_job_id_spells_the_samples(samples: Vec<u8>, job_id: String, i: int)
    requires
        call_ensures(job_id_of, (&samples,), job_id),
    ensures
        job_id@.len() == samples@.len(),
        0 <= i < samples@.len() ==> job_id@[i] as u32 == samples@[i],
{
}

} // verus!
