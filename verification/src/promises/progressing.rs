//! Promises of progress snapshots and of the number of pending tasks.
use vstd::prelude::*;

use crate::cache::{JobInfo, JobInfoCache};
use crate::jobs::{counts_on, readable, sum_of_readable, CountingPending, PendingTasksStep};
use crate::laws::{
    law_every_active_job_is_listed_once, law_pending_tasks_cover_active_jobs,
    law_snapshot_covers_active_jobs, lemma_filter_count, snapshots_run,
};
use crate::manager::TaskManager;
use crate::maps::lists_active;
use crate::progress::{
    of_stage, reports, rows_of, snapshots_on, sorted_by_stage, stage_progress, stage_rows,
    stage_snapshot, ExecutionStage, JobProgressSnapshot, JobProgressStages, ReadingProgress,
    SnapshotStep, StageProgress,
};
use crate::seqs::lemma_filter_push;
use crate::status::Status;

verus! {

/// Whether a row shows a stage: its number and variant, the partitions that it
/// has or will have, and how many of them are assigned and completed.
pub open spec fn shows_stage<T>(
    stage_id: usize,
    stage: ExecutionStage<T>,
    row: StageProgress,
) -> bool {
    &&& row.stage_id == stage_id
    &&& row.variant is Unresolved <==> stage is UnResolved
    &&& row.variant is Resolved <==> stage is Resolved
    &&& row.variant is Running <==> stage is Running
    &&& row.variant is Successful <==> stage is Successful
    &&& row.variant is Failed <==> stage is Failed
    &&& stage is UnResolved ==> row.partitions == 0
    &&& (stage matches ExecutionStage::Resolved(known) ==> row.partitions == known.partitions)
    &&& (stage matches ExecutionStage::Running(known) ==> row.partitions == known.partitions)
    &&& (stage matches ExecutionStage::Successful(known) ==> row.partitions == known.partitions)
    &&& (stage matches ExecutionStage::Failed(known) ==> row.partitions == known.partitions)
    &&& (stage matches ExecutionStage::Running(known) ==> row.assigned
        == known.task_infos@.filter(|info: Option<T>| info is Some).len())
    &&& stage is Successful ==> row.assigned == row.partitions
    &&& !(stage is Running) && !(stage is Successful) ==> row.assigned == 0
    &&& row.completed == if stage is Successful {
        row.partitions
    } else {
        0
    }
}

/// The row of a stage shows the stage.
pub proof fn law_row_shows_its_stage<T>(
    stage_id: usize,
    stage: ExecutionStage<T>,
    row: StageProgress,
)
    requires
        call_ensures(stage_snapshot::<T>, (stage_id, &stage), row),
    ensures
        shows_stage(stage_id, stage, row),
{
}

/// The row of a stage shows the stage also where it is only spoken of.
proof fn lemma_progress_shows<T>(stage_id: usize, stage: ExecutionStage<T>)
    ensures
        shows_stage(stage_id, stage, stage_progress(stage_id, stage)),
{
    if let ExecutionStage::Running(known) = stage {
        known.task_infos@.lemma_filter_len(|info: Option<T>| info is Some);
        assert(known.task_infos.len() == known.task_infos@.len());
    }
}

/// The stages with a given number among `stages`, in their order.
pub open spec fn with_number<T>(
    stages: Seq<(usize, ExecutionStage<T>)>,
    stage_id: usize,
) -> Seq<(usize, ExecutionStage<T>)> {
    stages.filter(|stage: (usize, ExecutionStage<T>)| stage.0 == stage_id)
}

/// The rows with a given number among `rows`, in their order.
pub open spec fn rows_with_number(
    rows: Seq<StageProgress>,
    stage_id: usize,
) -> Seq<StageProgress> {
    rows.filter(|row: StageProgress| row.stage_id == stage_id)
}

/// Whether rows show stages: one row for each stage, by rising number, and rows
/// of the same number in the order of the stages that they show.
pub open spec fn shows_stages<T>(
    stages: Seq<(usize, ExecutionStage<T>)>,
    rows: Seq<StageProgress>,
) -> bool {
    &&& rows.len() == stages.len()
    &&& forall|i: int, j: int|
        0 <= i < j < rows.len() ==> (#[trigger] rows[i]).stage_id <= (#[trigger] rows[j]).stage_id
    &&& forall|stage_id: usize|
        #![trigger rows_with_number(rows, stage_id)]
        rows_with_number(rows, stage_id).len() == with_number(stages, stage_id).len()
    &&& forall|stage_id: usize, k: int|
        #![trigger rows_with_number(rows, stage_id)[k]]
        0 <= k < with_number(stages, stage_id).len() ==> shows_stage(
            stage_id,
            with_number(stages, stage_id)[k].1,
            rows_with_number(rows, stage_id)[k],
        )
}

/// Rows of the same number belong to the stages of that number.
proof fn lemma_rows_of_number<T>(stages: Seq<(usize, ExecutionStage<T>)>, stage_id: usize)
    ensures
        rows_of(stages).filter(of_stage(stage_id)).len() == with_number(stages, stage_id).len(),
        forall|k: int|
            0 <= k < with_number(stages, stage_id).len() ==> {
                &&& #[trigger] rows_of(stages).filter(of_stage(stage_id))[k] == stage_progress(
                    stage_id,
                    with_number(stages, stage_id)[k].1,
                )
                &&& with_number(stages, stage_id)[k].0 == stage_id
            },
    decreases stages.len(),
{
    reveal(Seq::filter);
    if stages.len() > 0 {
        let shorter = stages.drop_last();
        let last = stages.last();
        lemma_rows_of_number(shorter, stage_id);
        assert(rows_of(stages) =~= rows_of(shorter).push(stage_progress(last.0, last.1)));
        lemma_filter_push(
            rows_of(shorter),
            stage_progress(last.0, last.1),
            of_stage(stage_id),
        );
        assert(stages =~= shorter.push(last));
        lemma_filter_push(
            shorter,
            last,
            |stage: (usize, ExecutionStage<T>)| stage.0 == stage_id,
        );
    }
}

/// Rows that are sorted by stage show their stages.
proof fn lemma_sorted_rows_show<T>(
    stages: Seq<(usize, ExecutionStage<T>)>,
    rows: Seq<StageProgress>,
)
    requires
        sorted_by_stage(rows_of(stages), rows),
    ensures
        shows_stages(stages, rows),
{
    let read = rows_of(stages);
    assert forall|row: StageProgress| rows.to_multiset().count(row) == read.to_multiset().count(
        row,
    ) by {
        lemma_filter_count(rows, of_stage(row.stage_id), row);
        lemma_filter_count(read, of_stage(row.stage_id), row);
        assert(rows.filter(of_stage(row.stage_id)) == read.filter(of_stage(row.stage_id)));
    }
    assert(rows.to_multiset() =~= read.to_multiset());
    rows.to_multiset_ensures();
    read.to_multiset_ensures();
    assert forall|stage_id: usize|
        #![trigger rows_with_number(rows, stage_id)]
        {
            &&& rows_with_number(rows, stage_id).len() == with_number(stages, stage_id).len()
            &&& rows_with_number(rows, stage_id) == read.filter(of_stage(stage_id))
        } by {
        lemma_rows_of_number(stages, stage_id);
        assert(of_stage(stage_id) =~= |row: StageProgress| row.stage_id == stage_id);
        assert(rows.filter(of_stage(stage_id)) == read.filter(of_stage(stage_id)));
    }
    assert forall|stage_id: usize, k: int|
        #![trigger rows_with_number(rows, stage_id)[k]]
        0 <= k < with_number(stages, stage_id).len() implies shows_stage(
        stage_id,
        with_number(stages, stage_id)[k].1,
        rows_with_number(rows, stage_id)[k],
    ) by {
        lemma_rows_of_number(stages, stage_id);
        assert(rows_with_number(rows, stage_id) == read.filter(of_stage(stage_id)));
        lemma_progress_shows(stage_id, with_number(stages, stage_id)[k].1);
    }
}

/// The rows of the stages of a graph show the stages: each has one row, and the
/// rows stand by rising number.
pub proof fn law_rows_show_their_stages<T>(
    stages: Vec<(usize, ExecutionStage<T>)>,
    rows: Vec<StageProgress>,
)
    requires
        call_ensures(stage_rows::<T>, (&stages,), rows),
    ensures
        shows_stages(stages@, rows@),
{
    lemma_sorted_rows_show(stages@, rows@);
}

/// Whether a snapshot tells the progress of a job: it is terminal if the cached
/// status is that of a job that succeeded or failed; it has the rows of the
/// stages that were read, and is unreadable if none could be.
pub open spec fn tells_progress<T>(
    job_id: Seq<char>,
    status: Option<Status>,
    stages: Option<Vec<(usize, ExecutionStage<T>)>>,
    snapshot: JobProgressSnapshot,
) -> bool {
    &&& snapshot.job_id@ == job_id
    &&& snapshot.is_terminal <==> status is Some && (status->Some_0 is Successful
        || status->Some_0 is Failed)
    &&& stages is None <==> snapshot.stages is Unreadable
    &&& (stages matches Some(read) ==> (snapshot.stages matches JobProgressStages::Readable(rows)
        && shows_stages(read@, rows@)))
}

/// What is reported of a job tells its progress.
proof fn lemma_reports_tell<T>(
    job_id: Seq<char>,
    status: Option<Status>,
    stages: Option<Vec<(usize, ExecutionStage<T>)>>,
    snapshot: JobProgressSnapshot,
)
    requires
        reports(job_id, status, stages, snapshot),
    ensures
        tells_progress(job_id, status, stages, snapshot),
{
    if let Some(read) = stages {
        lemma_sorted_rows_show(read@, snapshot.stages->Readable_0@);
    }
}

/// Whether a list of jobs and one more job are the active jobs, each once, with
/// their graphs and statuses.
pub open spec fn makes_up_active(
    active: Map<Seq<char>, JobInfo>,
    job_id: Seq<char>,
    remaining: Seq<(String, JobInfoCache)>,
) -> bool {
    &&& active.contains_key(job_id)
    &&& remaining.len() + 1 == active.dom().len()
    &&& forall|k: int|
        0 <= k < remaining.len() ==> {
            &&& active.contains_key((#[trigger] remaining[k]).0@)
            &&& remaining[k].0@ != job_id
            &&& remaining[k].1@.execution_graph == active[remaining[k].0@].execution_graph
            &&& remaining[k].1@.status == active[remaining[k].0@].status
        }
    &&& forall|k: int, l: int|
        0 <= k < l < remaining.len() ==> (#[trigger] remaining[k]).0@ != (#[trigger] remaining[l]).0@
}

/// A list of the active jobs without its last entry.
proof fn lemma_makes_up(
    active: Map<Seq<char>, JobInfo>,
    entries: Seq<(String, JobInfoCache)>,
)
    requires
        lists_active(active, entries),
    ensures
        entries.len() == active.dom().len(),
        entries.len() > 0 ==> {
            &&& makes_up_active(active, entries.last().0@, entries.drop_last())
            &&& entries.last().1@.execution_graph
                == active[entries.last().0@].execution_graph
            &&& entries.last().1@.status == active[entries.last().0@].status
        },
{
    law_every_active_job_is_listed_once(active, entries);
    if entries.len() > 0 {
        let rest = entries.drop_last();
        let n = entries.len() - 1;
        assert(active.contains_key(entries[n].0@));
        assert forall|k: int| 0 <= k < rest.len() implies {
            &&& active.contains_key((#[trigger] rest[k]).0@)
            &&& rest[k].0@ != entries.last().0@
            &&& rest[k].1@.execution_graph == active[rest[k].0@].execution_graph
            &&& rest[k].1@.status == active[rest[k].0@].status
        } by {
            assert(active.contains_key(entries[k].0@));
            assert(entries[k].0@ != entries[n].0@);
        }
        assert forall|k: int, l: int| 0 <= k < l < rest.len() implies (#[trigger] rest[k]).0@ != (
        #[trigger] rest[l]).0@ by {
            assert(entries[k].0@ != entries[l].0@);
        }
    }
}

/// A progress snapshot starts with one active job, with its graph, its status
/// and half a second to read the graph, and keeps the other active jobs for
/// later. Without an active job there is nothing to tell.
pub proof fn law_snapshot_starts_with_all_active_jobs(manager: TaskManager, step: SnapshotStep)
    requires
        call_ensures(TaskManager::capture_progress_snapshot, (&manager,), step),
    ensures
        manager@.active.dom().len() == 0 ==> {
            &&& step matches SnapshotStep::Finished(snapshots)
            &&& snapshots@.len() == 0
        },
        manager@.active.dom().len() > 0 ==> {
            &&& step matches SnapshotStep::ReadGraph(next)
            &&& makes_up_active(manager@.active, next.job_id@, next.remaining@)
            &&& next.graph == manager@.active[next.job_id@].execution_graph
            &&& next.status == manager@.active[next.job_id@].status
            &&& next.budget_millis == 500
            &&& next.captured@.len() == 0
        },
{
    let entries = choose|entries: Seq<(String, JobInfoCache)>| #[trigger]
        lists_active(manager@.active, entries) && snapshots_on(entries, Seq::empty(), step);
    lemma_makes_up(manager@.active, entries);
}

/// What was read of a graph adds one snapshot, which tells the progress of its
/// job, behind the others. The snapshot ends if no job is left, and else goes on
/// with the next.
pub proof fn law_read_graph_adds_its_snapshot<T>(
    at: ReadingProgress,
    stages: Option<Vec<(usize, ExecutionStage<T>)>>,
    step: SnapshotStep,
)
    requires
        call_ensures(ReadingProgress::read::<T>, (at, stages), step),
    ensures
        at.remaining@.len() == 0 ==> {
            &&& step matches SnapshotStep::Finished(snapshots)
            &&& snapshots@.len() == at.captured@.len() + 1
            &&& snapshots@.take(at.captured@.len() as int) == at.captured@
            &&& tells_progress(at.job_id@, at.status, stages, snapshots@[at.captured@.len() as int])
        },
        at.remaining@.len() > 0 ==> {
            &&& step matches SnapshotStep::ReadGraph(next)
            &&& next.job_id == at.remaining@.last().0
            &&& next.graph == at.remaining@.last().1@.execution_graph
            &&& next.status == at.remaining@.last().1@.status
            &&& next.budget_millis == 500
            &&& next.remaining@.push(at.remaining@.last()) == at.remaining@
            &&& next.captured@.len() == at.captured@.len() + 1
            &&& next.captured@.take(at.captured@.len() as int) == at.captured@
            &&& tells_progress(
                at.job_id@,
                at.status,
                stages,
                next.captured@[at.captured@.len() as int],
            )
        },
{
    let snapshot = choose|snapshot: JobProgressSnapshot| #[trigger]
        reports(at.job_id@, at.status, stages, snapshot) && snapshots_on(
            at.remaining@,
            at.captured@.push(snapshot),
            step,
        );
    lemma_reports_tell(at.job_id@, at.status, stages, snapshot);
    assert(at.captured@.push(snapshot).take(at.captured@.len() as int) =~= at.captured@);
    if at.remaining@.len() > 0 {
        assert(at.remaining@.drop_last().push(at.remaining@.last()) =~= at.remaining@);
    }
}

/// A finished progress snapshot tells the progress of each active job, once, from
/// the job's cached status and from what was read of its graph, and of no other
/// job.
pub proof fn law_snapshot_tells_each_active_job<T>(
    active: Map<Seq<char>, JobInfo>,
    entries: Seq<(String, JobInfoCache)>,
    readings: Seq<Option<Vec<(usize, ExecutionStage<T>)>>>,
    steps: Seq<SnapshotStep>,
)
    requires
        lists_active(active, entries),
        snapshots_run(entries, readings, steps),
    ensures
        steps.last() matches SnapshotStep::Finished(snapshots) && {
            &&& snapshots@.len() == active.dom().len()
            &&& forall|i: int|
                0 <= i < snapshots@.len() ==> {
                    &&& active.contains_key((#[trigger] snapshots@[i]).job_id@)
                    &&& tells_progress(
                        snapshots@[i].job_id@,
                        active[snapshots@[i].job_id@].status,
                        readings[i],
                        snapshots@[i],
                    )
                }
            &&& forall|i: int, j: int|
                0 <= i < j < snapshots@.len() ==> (#[trigger] snapshots@[i]).job_id@ != (
                #[trigger] snapshots@[j]).job_id@
        },
{
    law_snapshot_covers_active_jobs(active, entries, readings, steps);
    let snapshots = steps.last()->Finished_0;
    assert forall|i: int| 0 <= i < snapshots@.len() implies {
        &&& active.contains_key((#[trigger] snapshots@[i]).job_id@)
        &&& tells_progress(
            snapshots@[i].job_id@,
            active[snapshots@[i].job_id@].status,
            readings[i],
            snapshots@[i],
        )
    } by {
        assert(active.contains_key(snapshots[i].job_id@));
        lemma_reports_tell(
            snapshots@[i].job_id@,
            active[snapshots@[i].job_id@].status,
            readings[i],
            snapshots@[i],
        );
    }
    assert forall|i: int, j: int| 0 <= i < j < snapshots@.len() implies (
    #[trigger] snapshots@[i]).job_id@ != (#[trigger] snapshots@[j]).job_id@ by {
        assert(snapshots[i].job_id@ != snapshots[j].job_id@);
    }
}

/// The counting of pending tasks starts with one active job, with its graph and a
/// tenth of a second to read it, from 0, and keeps the other active jobs for
/// later. Without an active job there is no pending task.
pub proof fn law_counting_starts_with_all_active_jobs(
    manager: TaskManager,
    step: PendingTasksStep,
)
    requires
        call_ensures(TaskManager::total_pending_tasks, (&manager,), step),
    ensures
        manager@.active.dom().len() == 0 ==> step == PendingTasksStep::Finished(0),
        manager@.active.dom().len() > 0 ==> {
            &&& step matches PendingTasksStep::CountTasks(next)
            &&& makes_up_active(manager@.active, next.job_id@, next.remaining@)
            &&& next.graph == manager@.active[next.job_id@].execution_graph
            &&& next.budget_millis == 100
            &&& next.total == 0
        },
{
    let entries = choose|entries: Seq<(String, JobInfoCache)>| #[trigger]
        lists_active(manager@.active, entries) && counts_on(entries, 0, step);
    lemma_makes_up(manager@.active, entries);
}

/// A count is added to the total, and a graph that could not be read adds
/// nothing. The total is the outcome if no job is left, and else the next job is
/// counted.
pub proof fn law_count_is_added(
    at: CountingPending,
    count: Option<usize>,
    step: PendingTasksStep,
)
    requires
        call_ensures(CountingPending::counted, (at, count), step),
    ensures
        ({
            let total = if count is Some {
                at.total + count->Some_0
            } else {
                at.total as int
            };
            if at.remaining@.len() == 0 {
                &&& step matches PendingTasksStep::Finished(sum)
                &&& sum == total
            } else {
                &&& step matches PendingTasksStep::CountTasks(next)
                &&& next.job_id == at.remaining@.last().0
                &&& next.graph == at.remaining@.last().1@.execution_graph
                &&& next.budget_millis == 100
                &&& next.remaining@.push(at.remaining@.last()) == at.remaining@
                &&& next.total == total
            }
        }),
{
    if at.remaining@.len() > 0 {
        assert(at.remaining@.drop_last().push(at.remaining@.last()) =~= at.remaining@);
    }
}

/// The number of pending tasks is the sum of all counts that could be read, one
/// for each active job.
pub proof fn law_pending_tasks_are_summed(
    active: Map<Seq<char>, JobInfo>,
    entries: Seq<(String, JobInfoCache)>,
    counts: Seq<Option<usize>>,
    steps: Seq<PendingTasksStep>,
)
    requires
        lists_active(active, entries),
        counts.len() == entries.len(),
        steps.len() == entries.len() + 1,
        counts_on(entries, 0, steps[0]),
        forall|i: int|
            0 <= i < entries.len() ==> (#[trigger] steps[i] matches PendingTasksStep::CountTasks(at)
                ==> counts_on(at.remaining@, at.total as nat + readable(counts[i]), steps[i + 1])),
    ensures
        counts.len() == active.dom().len(),
        steps.last() matches PendingTasksStep::Finished(total) && total == counts.fold_left(
            0int,
            |sum: int, count: Option<usize>|
                if count is Some {
                    sum + count->Some_0
                } else {
                    sum
                },
        ),
{
    law_pending_tasks_cover_active_jobs(active, entries, counts, steps);
    lemma_sum(counts);
}

/// The sum of the counts that could be read, as a fold.
proof fn lemma_sum(counts: Seq<Option<usize>>)
    ensures
        sum_of_readable(counts) == counts.fold_left(
            0int,
            |sum: int, count: Option<usize>|
                if count is Some {
                    sum + count->Some_0
                } else {
                    sum
                },
        ),
    decreases counts.len(),
{
    if counts.len() > 0 {
        lemma_sum(counts.drop_last());
    }
}

} // verus!
