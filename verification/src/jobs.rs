//! Reading jobs, completing them, and cleaning up after them.
use vstd::prelude::*;

use crate::cache::JobInfoCache;
use crate::error::{job_message, message, BallistaError};
use crate::graph::{overview_of, ExecutionGraph, GraphId, JobOverview};
use crate::lifecycle::LifecycleId;
use crate::manager::{Manager, TaskManager};
use crate::maps::lists_active;

verus! {

/// Where the execution graph of a job is found.
#[derive(Clone, Copy, Debug, PartialEq, Eq)]
pub enum GraphSource {
    /// The job is active: its graph is this one.
    Active(GraphId),
    /// The job is not active: the persistent job state may have its graph.
    Stored,
}

/// Where the graph of a job is found: the active cache comes first.
pub open spec fn source_of(manager: Manager, job_id: Seq<char>) -> GraphSource {
    match manager.graph_of(job_id) {
        Some(graph) => GraphSource::Active(graph),
        None => GraphSource::Stored,
    }
}

/// The message of a job that is listed but has no graph.
pub open spec fn no_graph(job_id: Seq<char>) -> Seq<char> {
    message("Error getting job overview, no execution graph found for job "@, job_id, ""@)
}

/// A listing that waits for the graph of one job.
#[derive(Debug, PartialEq, Eq)]
pub struct Listing {
    /// The job whose graph is awaited.
    pub job_id: String,
    /// The jobs that come after it, the next one last.
    pub remaining: Vec<String>,
    /// The overviews of the jobs that came before it.
    pub overviews: Vec<JobOverview>,
}

/// What a listing of jobs needs next.
#[derive(Debug, PartialEq, Eq)]
pub enum ListingStep<E> {
    /// Read this graph, which is the awaited one, then [`Listing::graph_read`].
    ReadActive(GraphId, Listing),
    /// Read the awaited graph from the persistent job state, then
    /// [`Listing::graph_read`].
    ReadStored(Listing),
    /// Nothing: this is the outcome.
    Finished(Result<Vec<JobOverview>, BallistaError<E>>),
}

/// Whether `listing` awaits the graph of the last of `job_ids`, with the others
/// still to come and the given overviews made.
pub open spec fn awaits_last(
    job_ids: Seq<String>,
    overviews: Seq<JobOverview>,
    listing: Listing,
) -> bool {
    &&& listing.job_id == job_ids.last()
    &&& listing.remaining@ == job_ids.drop_last()
    &&& listing.overviews@ == overviews
}

/// Whether a listing goes on as it should when `job_ids` are still to be
/// listed: it ends when there are none, and else waits for the graph of the
/// last of them.
pub open spec fn lists_on<E>(
    manager: Manager,
    job_ids: Seq<String>,
    overviews: Seq<JobOverview>,
    step: ListingStep<E>,
) -> bool {
    if job_ids.len() == 0 {
        &&& step matches ListingStep::Finished(Ok(listed))
        &&& listed@ == overviews
    } else {
        match source_of(manager, job_ids.last()@) {
            GraphSource::Active(graph) => {
                &&& step matches ListingStep::ReadActive(found, listing)
                &&& found == graph
                &&& awaits_last(job_ids, overviews, listing)
            },
            GraphSource::Stored => {
                &&& step matches ListingStep::ReadStored(listing)
                &&& awaits_last(job_ids, overviews, listing)
            },
        }
    }
}

/// Whether a listing goes on as it should once the awaited graph was read: its
/// overview comes after the earlier ones. A job without a graph ends the
/// listing with an error, and so does a failure to read.
pub open spec fn listing_read<E>(
    manager: Manager,
    at: Listing,
    graph: Result<Option<ExecutionGraph>, BallistaError<E>>,
    step: ListingStep<E>,
) -> bool {
    match graph {
        Ok(Some(graph)) => lists_on(
            manager,
            at.remaining@,
            at.overviews@.push(overview_of(graph)),
            step,
        ),
        Ok(None) => {
            &&& step matches ListingStep::Finished(Err(BallistaError::Internal(text)))
            &&& text@ == no_graph(at.job_id@)
        },
        Err(error) => step == ListingStep::<E>::Finished(Err(error)),
    }
}

/// Goes on with a listing.
fn list_on<E>(manager: &TaskManager, job_ids: Vec<String>, overviews: Vec<JobOverview>) -> (step:
    ListingStep<E>)
    ensures
        lists_on(manager@, job_ids@, overviews@, step),
{
    let mut remaining = job_ids;
    match remaining.pop() {
        Some(job_id) => match manager.locate_graph(job_id.as_str()) {
            GraphSource::Active(graph) => ListingStep::ReadActive(
                graph,
                Listing { job_id, remaining, overviews },
            ),
            GraphSource::Stored => ListingStep::ReadStored(
                Listing { job_id, remaining, overviews },
            ),
        },
        None => ListingStep::Finished(Ok(overviews)),
    }
}

impl Listing {
    /// Takes the graph that was read.
    pub fn graph_read<E>(
        self,
        manager: &TaskManager,
        graph: Result<Option<ExecutionGraph>, BallistaError<E>>,
    ) -> (step: ListingStep<E>)
        ensures
            listing_read(manager@, self, graph, step),
    {
        match graph {
            Ok(Some(graph)) => {
                let mut overviews = self.overviews;
                overviews.push(JobOverview::from(&graph));
                list_on(manager, self.remaining, overviews)
            },
            Ok(None) => {
                let text = job_message(
                    "Error getting job overview, no execution graph found for job ",
                    self.job_id.as_str(),
                    "",
                );
                ListingStep::Finished(Err(BallistaError::Internal(text)))
            },
            Err(error) => ListingStep::Finished(Err(error)),
        }
    }
}

/// The graph of a job that is to be completed has to be checked.
#[derive(Debug, PartialEq, Eq)]
pub struct CheckingCompletion {
    pub job_id: String,
    /// The graph, which is no longer in the active cache.
    pub graph: GraphId,
}

/// The graph of a job that has succeeded has to be saved.
#[derive(Debug, PartialEq, Eq)]
pub struct SavingCompletion {
    pub job_id: String,
    pub graph: GraphId,
}

/// What completing a job needs next.
#[derive(Debug, PartialEq, Eq)]
pub enum SucceedStep<E> {
    /// See whether the graph is successful, then
    /// [`CheckingCompletion::checked`].
    CheckGraph(CheckingCompletion),
    /// Save the graph, then [`SavingCompletion::saved`].
    SaveGraph(SavingCompletion),
    /// Nothing: this is the outcome.
    Finished(Result<(), BallistaError<E>>),
}

/// What the start of a completion does: the active cache loses the job. A graph
/// that was cached has to be checked; without one, nothing is left to do.
pub open spec fn completion_started<E>(
    before: Manager,
    job_id: Seq<char>,
    after: Manager,
    step: SucceedStep<E>,
) -> bool {
    &&& after == before.without_active(job_id)
    &&& match before.graph_of(job_id) {
        Some(graph) => {
            &&& step matches SucceedStep::CheckGraph(next)
            &&& next.job_id@ == job_id
            &&& next.graph == graph
        },
        None => step == SucceedStep::<E>::Finished(Ok(())),
    }
}

impl CheckingCompletion {
    /// Takes whether the graph is successful. A graph that is not is left
    /// alone.
    pub fn checked<E>(self, successful: bool) -> (step: SucceedStep<E>)
        ensures
            step == (if successful {
                SucceedStep::<E>::SaveGraph(
                    SavingCompletion { job_id: self.job_id, graph: self.graph },
                )
            } else {
                SucceedStep::<E>::Finished(Ok(()))
            }),
    {
        if successful {
            SucceedStep::SaveGraph(SavingCompletion { job_id: self.job_id, graph: self.graph })
        } else {
            SucceedStep::Finished(Ok(()))
        }
    }
}

impl SavingCompletion {
    /// Takes what came of saving the graph.
    pub fn saved<E>(self, outcome: Result<(), BallistaError<E>>) -> (step: SucceedStep<E>)
        ensures
            step == SucceedStep::<E>::Finished(outcome),
    {
        SucceedStep::Finished(outcome)
    }
}

/// The graph of an active job has to be revived and saved, and its available
/// tasks have to be counted before and after.
#[derive(Debug, PartialEq, Eq)]
pub struct UpdatingJob {
    pub job_id: String,
    pub graph: GraphId,
}

/// What updating a job needs next.
#[derive(Debug, PartialEq, Eq)]
pub enum UpdateStep {
    /// Count, revive, save and count again, then [`UpdatingJob::saved`].
    ReviveGraph(UpdatingJob),
    /// Nothing: this is the number of new available tasks.
    Finished(usize),
}

impl UpdatingJob {
    /// The number of tasks that became available, unless the graph could not
    /// be saved.
    pub fn saved<E>(
        self,
        available_before: usize,
        outcome: Result<(), BallistaError<E>>,
        available_after: usize,
    ) -> (new_tasks: Result<usize, BallistaError<E>>)
        requires
            outcome is Ok ==> available_before <= available_after,
        ensures
            match outcome {
                Ok(_) => new_tasks matches Ok(count) && count == available_after - available_before,
                Err(error) => new_tasks == Err::<usize, BallistaError<E>>(error),
            },
    {
        match outcome {
            Ok(_) => Ok(available_after - available_before),
            Err(error) => Err(error),
        }
    }
}

/// What a request for a number of tasks needs next.
#[derive(Clone, Copy, Debug, PartialEq, Eq)]
pub enum TaskCountStep {
    /// Count the available tasks of this graph: that is the outcome.
    CountTasks(GraphId),
    /// Nothing: this is the outcome.
    Finished(usize),
}

/// How long a graph is waited for when pending tasks are counted, in
/// milliseconds.
pub const PENDING_TASKS_BUDGET_MILLIS: u64 = 100;

/// The sum of the counts that could be read.
pub open spec fn sum_of_readable(counts: Seq<Option<usize>>) -> nat
    decreases counts.len(),
{
    if counts.len() == 0 {
        0
    } else {
        sum_of_readable(counts.drop_last()) + readable(counts.last())
    }
}

/// The available tasks of one active job have to be counted.
#[derive(Debug)]
pub struct CountingPending {
    pub job_id: String,
    /// The job's graph.
    pub graph: GraphId,
    /// How long the graph is waited for, in milliseconds.
    pub budget_millis: u64,
    /// The active jobs that come after it, the next one last.
    pub remaining: Vec<(String, JobInfoCache)>,
    /// The sum over the jobs that came before it.
    pub total: usize,
}

/// What the number of pending tasks needs next.
#[derive(Debug)]
pub enum PendingTasksStep {
    /// Count the tasks of the graph, then [`CountingPending::counted`].
    CountTasks(CountingPending),
    /// Nothing: this is the number of pending tasks.
    Finished(usize),
}

/// Whether the counting of pending tasks goes on as it should when the jobs of
/// `entries` are still to be counted: the last of them is next, and without any
/// the sum is the outcome.
pub open spec fn counts_on(
    entries: Seq<(String, JobInfoCache)>,
    total: nat,
    step: PendingTasksStep,
) -> bool {
    if entries.len() == 0 {
        &&& step matches PendingTasksStep::Finished(sum)
        &&& sum == total
    } else {
        &&& step matches PendingTasksStep::CountTasks(next)
        &&& next.job_id == entries.last().0
        &&& next.graph == entries.last().1@.execution_graph
        &&& next.budget_millis == PENDING_TASKS_BUDGET_MILLIS
        &&& next.remaining@ == entries.drop_last()
        &&& next.total == total
    }
}

/// A count, which is 0 if the graph could not be read.
pub open spec fn readable(count: Option<usize>) -> nat {
    match count {
        Some(count) => count as nat,
        None => 0,
    }
}

/// Goes on with counting pending tasks.
fn count_on(entries: Vec<(String, JobInfoCache)>, total: usize) -> (step: PendingTasksStep)
    ensures
        counts_on(entries@, total as nat, step),
{
    let mut remaining = entries;
    match remaining.pop() {
        Some(entry) => {
            let (job_id, info) = entry;
            PendingTasksStep::CountTasks(
                CountingPending {
                    job_id,
                    graph: info.graph(),
                    budget_millis: PENDING_TASKS_BUDGET_MILLIS,
                    remaining,
                    total,
                },
            )
        },
        None => PendingTasksStep::Finished(total),
    }
}

impl CountingPending {
    /// Takes the number of available tasks of the graph. A graph that could not
    /// be read in time counts for nothing.
    pub fn counted(self, count: Option<usize>) -> (step: PendingTasksStep)
        requires
            self.total + readable(count) <= usize::MAX,
        ensures
            counts_on(self.remaining@, self.total as nat + readable(count), step),
    {
        let total: usize = match count {
            Some(count) => self.total + count,
            None => self.total,
        };
        count_on(self.remaining, total)
    }
}

impl TaskManager {
    /// Where the graph of a job is found.
    pub(crate) fn locate_graph(&self, job_id: &str) -> (source: GraphSource)
        ensures
            source == source_of(self@, job_id@),
    {
        match self.get_active_execution_graph(job_id) {
            Some(graph) => GraphSource::Active(graph),
            None => GraphSource::Stored,
        }
    }

    /// Where the status of a job is found: the graph of an active job has it,
    /// and for any other job the persistent job state may.
    pub fn get_job_status(&self, job_id: &str) -> (source: GraphSource)
        ensures
            source == source_of(self@, job_id@),
    {
        self.locate_graph(job_id)
    }

    /// Where the execution graph of a job is found.
    pub fn get_job_execution_graph(&self, job_id: &str) -> (source: GraphSource)
        ensures
            source == source_of(self@, job_id@),
    {
        self.locate_graph(job_id)
    }

    /// Starts listing jobs that the persistent job state has named, the last
    /// one first.
    pub fn get_jobs<E>(&self, job_ids: Vec<String>) -> (step: ListingStep<E>)
        ensures
            lists_on(self@, job_ids@, Seq::empty(), step),
    {
        list_on(self, job_ids, Vec::new())
    }

    /// Starts completing a job: takes it out of the active cache.
    pub fn succeed_job<E>(&mut self, job_id: &str) -> (step: SucceedStep<E>)
        ensures
            completion_started(old(self)@, job_id@, final(self)@, step),
    {
        match self.remove_active_execution_graph(job_id) {
            Some(graph) => SucceedStep::CheckGraph(
                CheckingCompletion { job_id: job_id.to_owned(), graph },
            ),
            None => SucceedStep::Finished(Ok(())),
        }
    }

    /// Starts updating a job. A job that is not active has no new tasks.
    pub fn update_job(&self, job_id: &str) -> (step: UpdateStep)
        ensures
            match self@.graph_of(job_id@) {
                Some(graph) => {
                    &&& step matches UpdateStep::ReviveGraph(next)
                    &&& next.job_id@ == job_id@
                    &&& next.graph == graph
                },
                None => step == UpdateStep::Finished(0),
            },
    {
        match self.get_active_execution_graph(job_id) {
            Some(graph) => UpdateStep::ReviveGraph(
                UpdatingJob { job_id: job_id.to_owned(), graph },
            ),
            None => UpdateStep::Finished(0),
        }
    }

    /// How the number of available tasks of a job is found. A job that is not
    /// active has none.
    pub fn get_available_task_count(&self, job_id: &str) -> (step: TaskCountStep)
        ensures
            step == (match self@.graph_of(job_id@) {
                Some(graph) => TaskCountStep::CountTasks(graph),
                None => TaskCountStep::Finished(0),
            }),
    {
        match self.get_active_execution_graph(job_id) {
            Some(graph) => TaskCountStep::CountTasks(graph),
            None => TaskCountStep::Finished(0),
        }
    }

    /// Starts counting the tasks of all active jobs that are available to
    /// schedule.
    pub fn total_pending_tasks(&self) -> (step: PendingTasksStep)
        ensures
            exists|entries: Seq<(String, JobInfoCache)>| #[trigger]
                lists_active(self@.active, entries) && counts_on(entries, 0, step),
    {
        let entries = self.active_job_infos();
        count_on(entries, 0)
    }

    /// How many seconds to wait before a failed job is cleaned up; nothing if
    /// it is not to be cleaned up.
    pub fn clean_up_job_delayed(clean_up_interval: u64) -> (delay: Option<u64>)
        ensures
            delay == (if clean_up_interval == 0 {
                None
            } else {
                Some(clean_up_interval)
            }),
    {
        if clean_up_interval == 0 {
            None
        } else {
            Some(clean_up_interval)
        }
    }

    /// Takes what came of removing a job from the persistent job state. The
    /// control of a job that was removed is released, and returned.
    pub fn job_cleaned_up<E>(&mut self, job_id: &str, outcome: &Result<(), BallistaError<E>>) -> (
    released: Option<LifecycleId>)
        ensures
            match *outcome {
                Ok(_) => {
                    &&& released == old(self)@.control_of(job_id@)
                    &&& final(self)@ == old(self)@.without_control(job_id@)
                },
                Err(_) => released is None && final(self)@ == old(self)@,
            },
    {
        match outcome {
            Ok(_) => self.drop_lifecycle(job_id),
            Err(_) => None,
        }
    }

    /// A new job identifier: seven random letters and digits. What is drawn is
    /// left to chance; [`job_id_of`] says what becomes of it.
    pub fn generate_job_id() -> (job_id: String)
        ensures
            is_job_id(job_id@),
    {
        let mut samples: Vec<u8> = Vec::new();
        while samples.len() < 7
            invariant
                samples.len() <= 7,
                forall|k: int|
                    0 <= k < samples.len() ==> is_alphanumeric(#[trigger] samples[k] as char),
            decreases 7 - samples.len(),
        {
            samples.push(sample_alphanumeric());
        }
        job_id_of(&samples)
    }
}

/// The job identifier that drawn characters make, in the order in which they
/// were drawn.
pub fn job_id_of(samples: &Vec<u8>) -> (job_id: String)
    ensures
        job_id@ == samples@.map_values(|sample: u8| sample as char),
{
    let mut job_id = String::new();
    let mut i: usize = 0;
    while i < samples.len()
        invariant
            i <= samples.len(),
            job_id@ =~= samples@.take(i as int).map_values(|sample: u8| sample as char),
        decreases samples.len() - i,
    {
        job_id.push(samples[i] as char);
        i = i + 1;
    }
    assert(samples@.take(i as int) =~= samples@);
    job_id
}

/// Whether a character is an ASCII letter or digit.
pub open spec fn is_alphanumeric(c: char) -> bool {
    'a' <= c <= 'z' || 'A' <= c <= 'Z' || '0' <= c <= '9'
}

/// Whether a text has the form of a job identifier.
pub open spec fn is_job_id(text: Seq<char>) -> bool {
    &&& text.len() == 7
    &&& forall|i: int| 0 <= i < text.len() ==> is_alphanumeric(#[trigger] text[i])
}

/// `Rng::sample` of the `rand` crate with the distribution `Alphanumeric`, on
/// the generator of the thread that `rand::rng` gives: an ASCII letter or
/// digit. Which one is left to chance. The first use on a thread seeds the
/// generator from the operating system, and panics if that has no randomness to
/// give.
#[verifier::external_body]
fn sample_alphanumeric() -> (sample: u8)
    ensures
        is_alphanumeric(sample as char),
{
    rand::Rng::sample(&mut rand::rng(), rand::distr::Alphanumeric)
}

/// `String::push` of the standard library: appends one character.
pub assume_specification[ String::push ](text: &mut String, c: char)
    ensures
        final(text)@ == old(text)@.push(c),
;

} // verus!
