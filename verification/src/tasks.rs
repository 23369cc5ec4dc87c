//! Tasks: how they are described to executors, and how their status updates
//! are sorted by job.
use vstd::prelude::*;

use crate::seqs::{lemma_filter_none, lemma_filter_push};

verus! {

/// How often a task may fail before it is considered failed.
pub const TASK_MAX_FAILURES: usize = 4;

/// How often a stage may fail before it is considered failed.
pub const STAGE_MAX_FAILURES: usize = 4;

/// One setting of a session.
#[derive(Debug, PartialEq, Eq)]
pub struct KeyValuePair {
    pub key: String,
    pub value: Option<String>,
}

/// Names one partition of a stage of a job.
#[derive(Debug, PartialEq, Eq)]
pub struct PartitionId {
    pub job_id: String,
    pub stage_id: usize,
    pub partition_id: usize,
}

/// A task that is to be run. `P` is the plan of a stage.
#[derive(Debug, PartialEq, Eq)]
pub struct TaskDescription<P> {
    pub session_id: String,
    pub partition: PartitionId,
    pub stage_attempt_num: usize,
    pub task_id: usize,
    pub task_attempt: usize,
    /// The plan of the task's stage.
    pub plan: P,
    /// The settings of the session, as they are sent to executors.
    pub props: Vec<KeyValuePair>,
}

/// One task, as it is sent to an executor.
#[derive(Debug, PartialEq, Eq)]
pub struct TaskDefinition {
    pub task_id: u32,
    pub task_attempt_num: u32,
    pub job_id: String,
    pub stage_id: u32,
    pub stage_attempt_num: u32,
    pub partition_id: u32,
    pub plan: Vec<u8>,
    pub session_id: String,
    pub launch_time: u64,
    pub props: Vec<KeyValuePair>,
}

/// What tells the tasks of one stage apart.
#[derive(Clone, Copy, Debug, PartialEq, Eq)]
pub struct TaskId {
    pub task_id: u32,
    pub task_attempt_num: u32,
    pub partition_id: u32,
}

/// Several tasks of one stage, as they are sent to an executor.
#[derive(Debug, PartialEq, Eq)]
pub struct MultiTaskDefinition {
    pub task_ids: Vec<TaskId>,
    pub job_id: String,
    pub stage_id: u32,
    pub stage_attempt_num: u32,
    pub plan: Vec<u8>,
    pub session_id: String,
    pub launch_time: u64,
    pub props: Vec<KeyValuePair>,
}

/// The definition of a task, from its description, its encoded plan and the
/// time of its launch. Numbers are sent with their lower 32 bits.
pub open spec fn task_definition<P>(
    task: TaskDescription<P>,
    plan: Vec<u8>,
    launch_time: u64,
) -> TaskDefinition {
    TaskDefinition {
        task_id: task.task_id as u32,
        task_attempt_num: task.task_attempt as u32,
        job_id: task.partition.job_id,
        stage_id: task.partition.stage_id as u32,
        stage_attempt_num: task.stage_attempt_num as u32,
        partition_id: task.partition.partition_id as u32,
        plan,
        session_id: task.session_id,
        launch_time,
        props: task.props,
    }
}

/// Builds the definition of a task.
pub fn define_task<P>(task: TaskDescription<P>, plan: Vec<u8>, launch_time: u64) -> (definition:
    TaskDefinition)
    ensures
        definition == task_definition(task, plan, launch_time),
{
    TaskDefinition {
        task_id: #[verifier::truncate] (task.task_id as u32),
        task_attempt_num: #[verifier::truncate] (task.task_attempt as u32),
        job_id: task.partition.job_id,
        stage_id: #[verifier::truncate] (task.partition.stage_id as u32),
        stage_attempt_num: #[verifier::truncate] (task.stage_attempt_num as u32),
        partition_id: #[verifier::truncate] (task.partition.partition_id as u32),
        plan,
        session_id: task.session_id,
        launch_time,
        props: task.props,
    }
}

/// What tells a task apart within its stage.
pub open spec fn task_key<P>(task: TaskDescription<P>) -> TaskId {
    TaskId {
        task_id: task.task_id as u32,
        task_attempt_num: task.task_attempt as u32,
        partition_id: task.partition.partition_id as u32,
    }
}

/// Whether `definition` defines all of `tasks`: one key for each of them in
/// their order, and the rest from the first.
pub open spec fn defines_tasks<P>(
    tasks: Seq<TaskDescription<P>>,
    definition: MultiTaskDefinition,
) -> bool {
    &&& tasks.len() > 0
    &&& definition.task_ids@ == tasks.map_values(|task: TaskDescription<P>| task_key(task))
    &&& definition.job_id == tasks[0].partition.job_id
    &&& definition.stage_id == tasks[0].partition.stage_id as u32
    &&& definition.stage_attempt_num == tasks[0].stage_attempt_num as u32
    &&& definition.session_id == tasks[0].session_id
    &&& definition.props == tasks[0].props
}

/// The keys of tasks, in their order.
fn task_keys<P>(tasks: &Vec<TaskDescription<P>>) -> (keys: Vec<TaskId>)
    ensures
        keys@ == tasks@.map_values(|task: TaskDescription<P>| task_key(task)),
{
    let mut keys: Vec<TaskId> = Vec::new();
    let mut i: usize = 0;
    while i < tasks.len()
        invariant
            i <= tasks.len(),
            keys@ =~= tasks@.take(i as int).map_values(|task: TaskDescription<P>| task_key(task)),
        decreases tasks.len() - i,
    {
        let task = &tasks[i];
        keys.push(
            TaskId {
                task_id: #[verifier::truncate] (task.task_id as u32),
                task_attempt_num: #[verifier::truncate] (task.task_attempt as u32),
                partition_id: #[verifier::truncate] (task.partition.partition_id as u32),
            },
        );
        i = i + 1;
    }
    assert(tasks@.take(i as int) =~= tasks@);
    keys
}

/// Builds the definition of several tasks of one stage.
pub fn define_tasks<P>(
    tasks: Vec<TaskDescription<P>>,
    plan: Vec<u8>,
    launch_time: u64,
) -> (definition: MultiTaskDefinition)
    requires
        tasks.len() > 0,
    ensures
        defines_tasks(tasks@, definition),
        definition.plan == plan,
        definition.launch_time == launch_time,
{
    let task_ids = task_keys(&tasks);
    let mut tasks = tasks;
    let first = tasks.swap_remove(0);
    MultiTaskDefinition {
        task_ids,
        job_id: first.partition.job_id,
        stage_id: #[verifier::truncate] (first.partition.stage_id as u32),
        stage_attempt_num: #[verifier::truncate] (first.stage_attempt_num as u32),
        plan,
        session_id: first.session_id,
        launch_time,
        props: first.props,
    }
}

/// An executor, as far as tasks are launched on it.
#[derive(Debug, PartialEq, Eq)]
pub struct ExecutorMetadata {
    /// Unique identifier of the executor.
    pub id: String,
}

impl Clone for ExecutorMetadata {
    fn clone(&self) -> (copy: Self)
        ensures
            copy == *self,
    {
        ExecutorMetadata { id: self.id.clone() }
    }
}

/// Tasks that are to be sent to an executor.
#[derive(Debug, PartialEq, Eq)]
pub struct LaunchRequest {
    /// The executor that is to run the tasks.
    pub executor_id: String,
    /// The tasks.
    pub tasks: Vec<MultiTaskDefinition>,
    /// The scheduler that sends them.
    pub scheduler_id: String,
}

/// Sends tasks to executors in the name of one scheduler.
#[derive(Debug, PartialEq, Eq)]
pub struct DefaultTaskLauncher {
    /// The scheduler in whose name tasks are sent.
    pub scheduler_id: String,
}

impl DefaultTaskLauncher {
    /// A launcher for a scheduler.
    pub fn new(scheduler_id: String) -> (launcher: Self)
        ensures
            launcher.scheduler_id == scheduler_id,
    {
        DefaultTaskLauncher { scheduler_id }
    }

    /// What has to be sent to launch tasks on an executor.
    pub fn launch_tasks(&self, executor: &ExecutorMetadata, tasks: Vec<MultiTaskDefinition>) -> (
    request: LaunchRequest)
        ensures
            request.executor_id@ == executor.id@,
            request.tasks == tasks,
            request.scheduler_id@ == self.scheduler_id@,
    {
        LaunchRequest {
            executor_id: executor.id.clone(),
            tasks,
            scheduler_id: self.scheduler_id.clone(),
        }
    }
}

/// A status update of one task. `U` is the update itself.
#[derive(Debug, PartialEq, Eq)]
pub struct TaskStatus<U> {
    /// The job that the task belongs to.
    pub job_id: String,
    /// What happened to the task.
    pub update: U,
}

/// The status updates of the tasks of one job.
#[derive(Debug, PartialEq, Eq)]
pub struct JobUpdates<U> {
    /// The job.
    pub job_id: String,
    /// Its updates, in the order in which they came.
    pub statuses: Vec<TaskStatus<U>>,
}

/// Picks the updates of one job.
pub open spec fn of_job<U>(job_id: Seq<char>) -> spec_fn(TaskStatus<U>) -> bool {
    |status: TaskStatus<U>| status.job_id@ == job_id
}

/// Whether `groups` holds the updates of each job that has any, once, and
/// within a job in the order in which they came.
pub open spec fn grouped_by_job<U>(
    statuses: Seq<TaskStatus<U>>,
    groups: Seq<JobUpdates<U>>,
) -> bool {
    &&& forall|g: int|
        0 <= g < groups.len() ==> {
            &&& (#[trigger] groups[g]).statuses@.len() > 0
            &&& groups[g].statuses@ == statuses.filter(of_job(groups[g].job_id@))
        }
    &&& forall|g: int, h: int|
        0 <= g < h < groups.len() ==> (#[trigger] groups[g]).job_id@ != (#[trigger] groups[h]).job_id@
    &&& forall|i: int|
        0 <= i < statuses.len() ==> exists|g: int|
            0 <= g < groups.len() && (#[trigger] groups[g]).job_id@ == (
            #[trigger] statuses[i]).job_id@
}

/// The place of a job's updates, if there are any.
fn find_group<U>(groups: &Vec<JobUpdates<U>>, job_id: &String) -> (at: Option<usize>)
    ensures
        match at {
            Some(g) => g < groups.len() && groups[g as int].job_id@ == job_id@,
            None => forall|g: int|
                0 <= g < groups.len() ==> (#[trigger] groups[g]).job_id@ != job_id@,
        },
{
    let mut g: usize = 0;
    while g < groups.len()
        invariant
            g <= groups.len(),
            forall|k: int| 0 <= k < g ==> (#[trigger] groups[k]).job_id@ != job_id@,
        decreases groups.len() - g,
    {
        if groups[g].job_id.eq(job_id) {
            return Some(g);
        }
        g = g + 1;
    }
    None
}

/// Sorts status updates by job.
pub fn group_task_statuses<U>(task_status: Vec<TaskStatus<U>>) -> (groups: Vec<JobUpdates<U>>)
    ensures
        grouped_by_job(task_status@, groups@),
{
    let ghost all = task_status@;
    let mut groups: Vec<JobUpdates<U>> = Vec::new();
    for status in it: task_status
        invariant
            it.seq() == all,
            grouped_by_job(all.take(it.index() as int), groups@),
    {
        let ghost seen = all.take(it.index() as int);
        let ghost before = groups@;
        let ghost s = status;
        assert(all.take(it.index() as int + 1) =~= seen.push(s));
        let ghost mut at: int = groups.len() as int;
        match find_group(&groups, &status.job_id) {
            Some(g) => {
                proof {
                    at = g as int;
                }
                groups[g].statuses.push(status);
            },
            None => {
                let job_id = status.job_id.clone();
                let mut statuses: Vec<TaskStatus<U>> = Vec::new();
                statuses.push(status);
                groups.push(JobUpdates { job_id, statuses });
            },
        }
        proof {
            assert forall|g: int| 0 <= g < groups.len() implies {
                &&& (#[trigger] groups[g]).statuses@.len() > 0
                &&& groups[g].statuses@ == seen.push(s).filter(of_job(groups[g].job_id@))
            } by {
                lemma_filter_push(seen, s, of_job(groups[g].job_id@));
                if g == before.len() {
                    lemma_filter_none(seen, of_job(groups[g].job_id@));
                    assert(groups[g].statuses@ =~= seq![s]);
                } else {
                    assert(before[g].job_id == groups[g].job_id);
                }
            }
            assert forall|i: int| 0 <= i < seen.push(s).len() implies exists|g: int|
                0 <= g < groups.len() && (#[trigger] groups[g]).job_id@ == (
                #[trigger] seen.push(s)[i]).job_id@ by {
                if i < seen.len() {
                    assert(seen.push(s)[i] == seen[i]);
                    let g = choose|g: int|
                        0 <= g < before.len() && (#[trigger] before[g]).job_id@ == seen[i].job_id@;
                    assert(groups[g].job_id == before[g].job_id);
                } else {
                    assert(groups[at].job_id@ == s.job_id@);
                }
            }
        }
    }
    assert(all.take(all.len() as int) =~= all);
    groups
}

} // verus!
