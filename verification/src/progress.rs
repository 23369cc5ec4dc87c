//! Progress snapshots of active jobs, which a detector of stuck queries
//! compares from one cycle to the next.
use vstd::prelude::*;

use crate::cache::JobInfoCache;
use crate::graph::GraphId;
use crate::manager::TaskManager;
use crate::maps::lists_active;
use crate::seqs::{lemma_filter_none, lemma_filter_push};
use crate::status::{copy_status, is_terminal, is_terminal_status, Status};

verus! {

/// A stage whose inputs are known and which has not started.
#[derive(Debug, PartialEq, Eq)]
pub struct ResolvedStage {
    /// Total number of output partitions.
    pub partitions: usize,
}

/// A stage whose tasks are being scheduled. `T` describes a bound task.
#[derive(Debug, PartialEq, Eq)]
pub struct RunningStage<T> {
    /// Total number of output partitions.
    pub partitions: usize,
    /// For each partition, the task that was bound to an executor, if any.
    pub task_infos: Vec<Option<T>>,
}

/// A stage that has completed.
#[derive(Debug, PartialEq, Eq)]
pub struct SuccessfulStage {
    /// Total number of output partitions.
    pub partitions: usize,
}

/// A stage that has failed.
#[derive(Debug, PartialEq, Eq)]
pub struct FailedStage {
    /// Total number of output partitions.
    pub partitions: usize,
}

/// What a progress snapshot reads of a stage of an execution graph.
#[derive(Debug, PartialEq, Eq)]
pub enum ExecutionStage<T> {
    /// Waiting for upstream output; the partition count is not known yet.
    UnResolved,
    /// Ready to run.
    Resolved(ResolvedStage),
    /// Running.
    Running(RunningStage<T>),
    /// Completed.
    Successful(SuccessfulStage),
    /// Failed.
    Failed(FailedStage),
}

/// Tells the variants of [`ExecutionStage`] apart.
#[derive(Clone, Copy, Debug, PartialEq, Eq)]
pub enum StageVariant {
    Unresolved,
    Resolved,
    Running,
    Successful,
    Failed,
}

/// One row of a progress snapshot.
///
/// For a running stage, `partitions` is the number of partitions that the
/// stage will produce and `assigned` the number of those that have been bound
/// to an executor; `completed` is 0, since completion within a running stage is
/// not surfaced. For a resolved stage only `partitions` is set. For an
/// unresolved stage nothing is known. For a successful stage all three are
/// equal. For a failed stage only `partitions` is meaningful.
#[derive(Clone, Copy, Debug, PartialEq, Eq)]
pub struct StageProgress {
    pub stage_id: usize,
    pub variant: StageVariant,
    pub partitions: usize,
    pub assigned: usize,
    pub completed: usize,
}

/// The number of partitions that have a task bound to them.
pub open spec fn assigned_tasks<T>(task_infos: Seq<Option<T>>) -> nat {
    task_infos.filter(|info: Option<T>| info is Some).len()
}

/// The row that a stage has in a progress snapshot.
pub open spec fn stage_progress<T>(stage_id: usize, stage: ExecutionStage<T>) -> StageProgress {
    match stage {
        ExecutionStage::UnResolved => StageProgress {
            stage_id,
            variant: StageVariant::Unresolved,
            partitions: 0,
            assigned: 0,
            completed: 0,
        },
        ExecutionStage::Resolved(stage) => StageProgress {
            stage_id,
            variant: StageVariant::Resolved,
            partitions: stage.partitions,
            assigned: 0,
            completed: 0,
        },
        ExecutionStage::Running(stage) => StageProgress {
            stage_id,
            variant: StageVariant::Running,
            partitions: stage.partitions,
            assigned: assigned_tasks(stage.task_infos@) as usize,
            completed: 0,
        },
        ExecutionStage::Successful(stage) => StageProgress {
            stage_id,
            variant: StageVariant::Successful,
            partitions: stage.partitions,
            assigned: stage.partitions,
            completed: stage.partitions,
        },
        ExecutionStage::Failed(stage) => StageProgress {
            stage_id,
            variant: StageVariant::Failed,
            partitions: stage.partitions,
            assigned: 0,
            completed: 0,
        },
    }
}

/// Counts the partitions that have a task bound to them.
fn count_assigned<T>(task_infos: &Vec<Option<T>>) -> (assigned: usize)
    ensures
        assigned == assigned_tasks(task_infos@),
{
    let ghost bound = |info: Option<T>| info is Some;
    let mut assigned: usize = 0;
    let mut i: usize = 0;
    assert(task_infos@.take(0).filter(bound).len() == 0) by {
        reveal(Seq::filter);
    }
    while i < task_infos.len()
        invariant
            i <= task_infos.len(),
            assigned <= i,
            bound == (|info: Option<T>| info is Some),
            assigned == task_infos@.take(i as int).filter(bound).len(),
        decreases task_infos.len() - i,
    {
        proof {
            reveal(Seq::filter);
            assert(task_infos@.take(i + 1).drop_last() =~= task_infos@.take(i as int));
        }
        if task_infos[i].is_some() {
            assigned = assigned + 1;
        }
        i = i + 1;
    }
    assert(task_infos@.take(i as int) =~= task_infos@);
    assigned
}

/// The row of one stage.
pub fn stage_snapshot<T>(stage_id: usize, stage: &ExecutionStage<T>) -> (row: StageProgress)
    ensures
        row == stage_progress(stage_id, *stage),
        *stage matches ExecutionStage::Running(running) ==> row.assigned == assigned_tasks(
            running.task_infos@,
        ),
{
    let (variant, partitions, assigned, completed): (StageVariant, usize, usize, usize) =
        match stage {
        // An unresolved stage waits for upstream output and has no partition
        // count yet.
        ExecutionStage::UnResolved => (StageVariant::Unresolved, 0, 0, 0),
        ExecutionStage::Resolved(stage) => (StageVariant::Resolved, stage.partitions, 0, 0),
        ExecutionStage::Running(stage) => (
            StageVariant::Running,
            stage.partitions,
            count_assigned(&stage.task_infos),
            0,
        ),
        ExecutionStage::Successful(stage) => (
            StageVariant::Successful,
            stage.partitions,
            stage.partitions,
            stage.partitions,
        ),
        ExecutionStage::Failed(stage) => (StageVariant::Failed, stage.partitions, 0, 0),
    };
    StageProgress { stage_id, variant, partitions, assigned, completed }
}

/// Picks the rows of one stage.
pub open spec fn of_stage(stage_id: usize) -> spec_fn(StageProgress) -> bool {
    |row: StageProgress| row.stage_id == stage_id
}

/// Whether rows stand in the order of their stages.
pub open spec fn in_stage_order(rows: Seq<StageProgress>) -> bool {
    forall|i: int, j: int|
        0 <= i <= j < rows.len() ==> (#[trigger] rows[i]).stage_id <= (#[trigger] rows[j]).stage_id
}

/// Whether `sorted` holds the rows of `rows` in the order of their stages, and
/// rows of the same stage in the order that they had.
pub open spec fn sorted_by_stage(rows: Seq<StageProgress>, sorted: Seq<StageProgress>) -> bool {
    &&& in_stage_order(sorted)
    &&& forall|stage_id: usize|
        sorted.filter(#[trigger] of_stage(stage_id)) == rows.filter(of_stage(stage_id))
}

/// Filtering a sequence with one element put into it.
proof fn lemma_filter_insert(
    rows: Seq<StageProgress>,
    at: int,
    row: StageProgress,
    keep: spec_fn(StageProgress) -> bool,
)
    requires
        0 <= at <= rows.len(),
    ensures
        rows.filter(keep) == rows.take(at).filter(keep) + rows.skip(at).filter(keep),
        rows.insert(at, row).filter(keep) == rows.take(at).filter(keep) + (if keep(row) {
            seq![row]
        } else {
            seq![]
        }) + rows.skip(at).filter(keep),
{
    let front = rows.take(at);
    let back = rows.skip(at);
    assert(rows =~= front + back);
    assert(rows.insert(at, row) =~= (front + seq![row]) + back);
    Seq::filter_distributes_over_add(front, back, keep);
    Seq::filter_distributes_over_add(front + seq![row], back, keep);
    Seq::filter_distributes_over_add(front, seq![row], keep);
    reveal_with_fuel(Seq::<_>::filter, 2);
    assert(seq![row].drop_last() =~= seq![]);
    assert(seq![row].filter(keep) =~= (if keep(row) {
        seq![row]
    } else {
        seq![]
    }));
}

/// Puts one more row into rows that are in order, behind those of the same
/// stage.
fn insert_row(sorted: &mut Vec<StageProgress>, row: StageProgress, Ghost(rows): Ghost<
    Seq<StageProgress>,
>)
    requires
        sorted_by_stage(rows, old(sorted)@),
    ensures
        sorted_by_stage(rows.push(row), final(sorted)@),
{
    let mut at: usize = sorted.len();
    while at > 0 && sorted[at - 1].stage_id > row.stage_id
        invariant
            at <= sorted.len(),
            forall|k: int| at <= k < sorted.len() ==> (#[trigger] sorted[k]).stage_id > row.stage_id,
        decreases at,
    {
        at = at - 1;
    }
    let ghost before = sorted@;
    sorted.insert(at, row);
    proof {
        assert(sorted@ =~= before.insert(at as int, row));
        assert(in_stage_order(sorted@));
        assert forall|stage_id: usize|
            sorted@.filter(#[trigger] of_stage(stage_id)) == rows.push(row).filter(
                of_stage(stage_id),
            ) by {
            let keep = of_stage(stage_id);
            lemma_filter_insert(before, at as int, row, keep);
            lemma_filter_push(rows, row, keep);
            if keep(row) {
                lemma_filter_none(before.skip(at as int), keep);
                assert(sorted@.filter(keep) =~= before.filter(keep).push(row));
            } else {
                assert(sorted@.filter(keep) =~= before.filter(keep));
            }
        }
    }
}

/// The rows of the stages of a graph, in the order in which they were read.
pub open spec fn rows_of<T>(stages: Seq<(usize, ExecutionStage<T>)>) -> Seq<StageProgress> {
    stages.map_values(|stage: (usize, ExecutionStage<T>)| stage_progress(stage.0, stage.1))
}

/// The rows of the stages of a graph, ordered by stage.
pub fn stage_rows<T>(stages: &Vec<(usize, ExecutionStage<T>)>) -> (rows: Vec<StageProgress>)
    ensures
        sorted_by_stage(rows_of(stages@), rows@),
{
    let mut rows: Vec<StageProgress> = Vec::new();
    let ghost read = rows_of(stages@);
    let mut i: usize = 0;
    assert(read.take(0) =~= rows@);
    while i < stages.len()
        invariant
            i <= stages.len(),
            read == rows_of(stages@),
            sorted_by_stage(read.take(i as int), rows@),
        decreases stages.len() - i,
    {
        let row = stage_snapshot(stages[i].0, &stages[i].1);
        insert_row(&mut rows, row, Ghost(read.take(i as int)));
        assert(read.take(i + 1) =~= read.take(i as int).push(row));
        i = i + 1;
    }
    assert(read.take(i as int) =~= read);
    rows
}

/// Per-stage progress of one job.
#[derive(Debug, PartialEq, Eq)]
pub enum JobProgressStages {
    /// The rows of the job's stages, ordered by stage.
    Readable(Vec<StageProgress>),
    /// The graph could not be read in the time allowed for it. This is a
    /// diagnostic state of its own: most often a writer holds the graph.
    Unreadable,
}

/// One active job's progress at a single point in time.
#[derive(Debug, PartialEq, Eq)]
pub struct JobProgressSnapshot {
    /// Unique identifier of the job.
    pub job_id: String,
    /// Whether the job has succeeded or failed.
    pub is_terminal: bool,
    /// Progress of the job's stages.
    pub stages: JobProgressStages,
}

/// How long a graph is waited for when a progress snapshot is taken, in
/// milliseconds.
pub const SNAPSHOT_BUDGET_MILLIS: u64 = 500;

/// Whether `snapshot` reports what is known of a job: its cached status, and the
/// stages of its graph, or nothing if the graph could not be read in time.
pub open spec fn reports<T>(
    job_id: Seq<char>,
    status: Option<Status>,
    stages: Option<Vec<(usize, ExecutionStage<T>)>>,
    snapshot: JobProgressSnapshot,
) -> bool {
    &&& snapshot.job_id@ == job_id
    &&& snapshot.is_terminal == is_terminal_status(status)
    &&& match stages {
        Some(stages) => snapshot.stages matches JobProgressStages::Readable(rows)
            && sorted_by_stage(rows_of(stages@), rows@),
        None => snapshot.stages == JobProgressStages::Unreadable,
    }
}

/// The graph of one active job has to be read.
#[derive(Debug)]
pub struct ReadingProgress {
    pub job_id: String,
    /// The cached status of the job.
    pub status: Option<Status>,
    /// The job's graph.
    pub graph: GraphId,
    /// How long the graph is waited for, in milliseconds.
    pub budget_millis: u64,
    /// The active jobs that come after it, the next one last.
    pub remaining: Vec<(String, JobInfoCache)>,
    /// The snapshots of the jobs that came before it.
    pub captured: Vec<JobProgressSnapshot>,
}

/// What a progress snapshot of all active jobs needs next.
#[derive(Debug)]
pub enum SnapshotStep {
    /// Read the stages of the graph, then [`ReadingProgress::read`].
    ReadGraph(ReadingProgress),
    /// Nothing: this is the outcome.
    Finished(Vec<JobProgressSnapshot>),
}

/// Whether a snapshot goes on as it should when the jobs of `entries` are still
/// to be captured: the last of them is next, and without any the snapshots that
/// were captured are the outcome.
pub open spec fn snapshots_on(
    entries: Seq<(String, JobInfoCache)>,
    captured: Seq<JobProgressSnapshot>,
    step: SnapshotStep,
) -> bool {
    if entries.len() == 0 {
        &&& step matches SnapshotStep::Finished(snapshots)
        &&& snapshots@ == captured
    } else {
        &&& step matches SnapshotStep::ReadGraph(next)
        &&& next.job_id == entries.last().0
        &&& next.status == entries.last().1@.status
        &&& next.graph == entries.last().1@.execution_graph
        &&& next.budget_millis == SNAPSHOT_BUDGET_MILLIS
        &&& next.remaining@ == entries.drop_last()
        &&& next.captured@ == captured
    }
}

/// Whether a snapshot goes on as it should once a graph was read, or could not
/// be: the job's snapshot comes behind the others.
pub open spec fn progress_read<T>(
    at: ReadingProgress,
    stages: Option<Vec<(usize, ExecutionStage<T>)>>,
    step: SnapshotStep,
) -> bool {
    exists|snapshot: JobProgressSnapshot| #[trigger]
        reports(at.job_id@, at.status, stages, snapshot) && snapshots_on(
            at.remaining@,
            at.captured@.push(snapshot),
            step,
        )
}

/// The progress of one job.
fn job_progress<T>(
    job_id: String,
    status: &Option<Status>,
    stages: &Option<Vec<(usize, ExecutionStage<T>)>>,
) -> (snapshot: JobProgressSnapshot)
    ensures
        reports(job_id@, *status, *stages, snapshot),
{
    let stages = match stages {
        Some(stages) => JobProgressStages::Readable(stage_rows(stages)),
        None => JobProgressStages::Unreadable,
    };
    JobProgressSnapshot { job_id, is_terminal: is_terminal(status), stages }
}

/// Goes on with a snapshot.
fn snapshot_on(entries: Vec<(String, JobInfoCache)>, captured: Vec<JobProgressSnapshot>) -> (step:
    SnapshotStep)
    ensures
        snapshots_on(entries@, captured@, step),
{
    let mut remaining = entries;
    match remaining.pop() {
        Some(entry) => {
            let (job_id, info) = entry;
            SnapshotStep::ReadGraph(
                ReadingProgress {
                    job_id,
                    status: copy_status(info.status()),
                    graph: info.graph(),
                    budget_millis: SNAPSHOT_BUDGET_MILLIS,
                    remaining,
                    captured,
                },
            )
        },
        None => SnapshotStep::Finished(captured),
    }
}

impl ReadingProgress {
    /// Takes the stages of the graph in any order, or nothing if the graph
    /// could not be read in time.
    pub fn read<T>(self, stages: Option<Vec<(usize, ExecutionStage<T>)>>) -> (step: SnapshotStep)
        ensures
            progress_read(self, stages, step),
    {
        let snapshot = job_progress(self.job_id, &self.status, &stages);
        let mut captured = self.captured;
        captured.push(snapshot);
        snapshot_on(self.remaining, captured)
    }
}

impl TaskManager {
    /// Starts a progress snapshot of all active jobs.
    pub fn capture_progress_snapshot(&self) -> (step: SnapshotStep)
        ensures
            exists|entries: Seq<(String, JobInfoCache)>| #[trigger]
                lists_active(self@.active, entries) && snapshots_on(entries, Seq::empty(), step),
    {
        let entries = self.active_job_infos();
        snapshot_on(entries, Vec::new())
    }
}

} // verus!
