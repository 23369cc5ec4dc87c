//! Promises of preparing and launching tasks.
use vstd::prelude::*;

use crate::error::BallistaError;
use crate::launch::{definitions_of, errors_of, stages_prepared, tasks_prepared, Launch};
use crate::manager::{Manager, TaskManager};
use crate::tasks::{
    define_task, define_tasks, DefaultTaskLauncher, ExecutorMetadata, LaunchRequest,
    MultiTaskDefinition, TaskDefinition, TaskDescription, TaskId,
};

verus! {

/// Whether a definition tells an executor what a task is, with the lower bits of
/// its numbers.
pub open spec fn tells_task<P>(task: TaskDescription<P>, definition: TaskDefinition) -> bool {
    &&& definition.task_id == task.task_id as u32
    &&& definition.task_attempt_num == task.task_attempt as u32
    &&& definition.job_id == task.partition.job_id
    &&& definition.stage_id == task.partition.stage_id as u32
    &&& definition.stage_attempt_num == task.stage_attempt_num as u32
    &&& definition.partition_id == task.partition.partition_id as u32
    &&& definition.session_id == task.session_id
    &&& definition.props == task.props
}

/// Whether a definition tells an executor what all of `tasks` are: it has one
/// identifier for each of them, in their order, and the job, the stage and the
/// session of the first.
pub open spec fn tells_all_tasks<P>(
    tasks: Seq<TaskDescription<P>>,
    definition: MultiTaskDefinition,
) -> bool {
    &&& definition.task_ids@.len() == tasks.len()
    &&& forall|i: int|
        0 <= i < tasks.len() ==> {
            let id: TaskId = #[trigger] definition.task_ids@[i];
            &&& id.task_id == tasks[i].task_id as u32
            &&& id.task_attempt_num == tasks[i].task_attempt as u32
            &&& id.partition_id == tasks[i].partition.partition_id as u32
        }
    &&& definition.job_id == tasks[0].partition.job_id
    &&& definition.stage_id == tasks[0].partition.stage_id as u32
    &&& definition.stage_attempt_num == tasks[0].stage_attempt_num as u32
    &&& definition.session_id == tasks[0].session_id
    &&& definition.props == tasks[0].props
}

/// The definition of a task tells all of the task, with the given plan and time.
pub proof fn law_definition_tells_its_task<P>(
    task: TaskDescription<P>,
    plan: Vec<u8>,
    launch_time: u64,
    definition: TaskDefinition,
)
    requires
        call_ensures(define_task::<P>, (task, plan, launch_time), definition),
    ensures
        definition.task_id == task.task_id as u32,
        definition.task_attempt_num == task.task_attempt as u32,
        definition.job_id == task.partition.job_id,
        definition.stage_id == task.partition.stage_id as u32,
        definition.stage_attempt_num == task.stage_attempt_num as u32,
        definition.partition_id == task.partition.partition_id as u32,
        definition.session_id == task.session_id,
        definition.props == task.props,
        definition.plan == plan,
        definition.launch_time == launch_time,
{
}

/// The definition of several tasks has as many task identifiers as there are
/// tasks: the i-th one is that of the i-th task. None is left out, whatever its
/// attempt or partition.
pub proof fn law_definition_tells_every_task<P>(
    tasks: Vec<TaskDescription<P>>,
    plan: Vec<u8>,
    launch_time: u64,
    definition: MultiTaskDefinition,
    i: int,
)
    requires
        call_ensures(define_tasks::<P>, (tasks, plan, launch_time), definition),
    ensures
        definition.task_ids@.len() == tasks@.len(),
        0 <= i < tasks@.len() ==> {
            &&& definition.task_ids@[i].task_id == tasks@[i].task_id as u32
            &&& definition.task_ids@[i].task_attempt_num == tasks@[i].task_attempt as u32
            &&& definition.task_ids@[i].partition_id == tasks@[i].partition.partition_id as u32
        },
        definition.job_id == tasks@[0].partition.job_id,
        definition.stage_id == tasks@[0].partition.stage_id as u32,
        definition.stage_attempt_num == tasks@[0].stage_attempt_num as u32,
        definition.session_id == tasks@[0].session_id,
        definition.props == tasks@[0].props,
        definition.plan == plan,
        definition.launch_time == launch_time,
{
}

/// A launcher sends all tasks to the executor that it is given, in the name of
/// its scheduler.
pub proof fn law_launcher_sends_everything(
    scheduler_id: String,
    launcher: DefaultTaskLauncher,
    executor: ExecutorMetadata,
    copy: ExecutorMetadata,
    tasks: Vec<MultiTaskDefinition>,
    request: LaunchRequest,
)
    requires
        call_ensures(DefaultTaskLauncher::new, (scheduler_id,), launcher),
        call_ensures(<ExecutorMetadata as Clone>::clone, (&executor,), copy),
        call_ensures(DefaultTaskLauncher::launch_tasks, (&launcher, &executor, tasks), request),
    ensures
        launcher.scheduler_id == scheduler_id,
        copy == executor,
        request.executor_id@ == executor.id@,
        request.tasks == tasks,
        request.scheduler_id@ == scheduler_id@,
{
}

/// A task of a job that is not active is refused, with the job's name, and
/// nothing changes.
pub proof fn law_task_of_inactive_job_is_refused<
    E,
    P,
    F: FnOnce(&P) -> Result<Vec<u8>, BallistaError<E>>,
    C: FnOnce() -> u64,
>(
    manager: &mut TaskManager,
    task: TaskDescription<P>,
    encode: F,
    clock: C,
    outcome: Result<TaskDefinition, BallistaError<E>>,
)
    requires
        call_ensures(
            TaskManager::prepare_task_definition::<E, P, F, C>,
            (manager, task, encode, clock),
            outcome,
        ),
        !old(manager)@.active.contains_key(task.partition.job_id@),
    ensures
        outcome matches Err(BallistaError::General(text)) && text@
            == "Cannot prepare task definition for job "@ + task.partition.job_id@
            + " which is not in active cache"@,
        final(manager)@ == old(manager)@,
{
}

/// A task of an active job is told to the executor with its stage's cached plan,
/// or else with what the encoder gives of its own plan, and with the clock's
/// time; an error of the encoder is the outcome.
pub proof fn law_task_of_active_job_is_prepared<
    E,
    P,
    F: FnOnce(&P) -> Result<Vec<u8>, BallistaError<E>>,
    C: FnOnce() -> u64,
>(
    manager: &mut TaskManager,
    task: TaskDescription<P>,
    encode: F,
    clock: C,
    outcome: Result<TaskDefinition, BallistaError<E>>,
)
    requires
        call_ensures(
            TaskManager::prepare_task_definition::<E, P, F, C>,
            (manager, task, encode, clock),
            outcome,
        ),
        old(manager)@.active.contains_key(task.partition.job_id@),
    ensures
        outcome matches Ok(definition) ==> tells_task(task, definition) && call_ensures(
            clock,
            (),
            definition.launch_time,
        ),
        ({
            let plans = old(manager)@.active[task.partition.job_id@].plans;
            if old(manager)@.caches_plans && plans.contains_key(task.partition.stage_id) {
                &&& outcome matches Ok(definition)
                &&& definition.plan@ == plans[task.partition.stage_id]
            } else {
                call_ensures(
                    encode,
                    (&task.plan,),
                    match outcome {
                        Ok(definition) => Ok(definition.plan),
                        Err(error) => Err(error),
                    },
                )
            }
        }),
        plan_kept(
            old(manager)@,
            final(manager)@,
            task.partition.job_id@,
            task.partition.stage_id,
            match outcome {
                Ok(definition) => Some(definition.plan@),
                Err(_) => None,
            },
        ),
{
    assert(final(manager)@.active.dom() =~= old(manager)@.active.dom());
}

/// Whether nothing of the manager changed but that a plan was cached for a stage
/// of a job: the one that was given, if there is one, and if plans are cached.
pub open spec fn plan_kept(
    before: Manager,
    after: Manager,
    job_id: Seq<char>,
    stage_id: usize,
    plan: Option<Seq<u8>>,
) -> bool {
    &&& after.scheduler_id == before.scheduler_id
    &&& after.caches_plans == before.caches_plans
    &&& after.controls == before.controls
    &&& after.active.dom() == before.active.dom()
    &&& forall|other: Seq<char>| #[trigger]
        before.active.contains_key(other) ==> {
            let old_info = before.active[other];
            let new_info = after.active[other];
            &&& new_info.execution_graph == old_info.execution_graph
            &&& new_info.status == old_info.status
            &&& forall|stage: usize|
                #![trigger new_info.plans.contains_key(stage)]
                if other == job_id && stage == stage_id && before.caches_plans && plan is Some {
                    new_info.plans.contains_key(stage) && new_info.plans[stage] == plan->Some_0
                } else {
                    &&& new_info.plans.contains_key(stage) <==> old_info.plans.contains_key(stage)
                    &&& new_info.plans.contains_key(stage) ==> new_info.plans[stage]
                        == old_info.plans[stage]
                }
        }
}

/// No task at all, and tasks of a job that is not active, are refused, each with
/// its message, and nothing changes.
pub proof fn law_tasks_without_active_job_are_refused<
    E,
    P,
    F: FnOnce(&P) -> Result<Vec<u8>, BallistaError<E>>,
    C: FnOnce() -> u64,
>(
    manager: &mut TaskManager,
    tasks: Vec<TaskDescription<P>>,
    encode: F,
    clock: C,
    outcome: Result<Vec<MultiTaskDefinition>, BallistaError<E>>,
)
    requires
        call_ensures(
            TaskManager::prepare_multi_task_definition::<E, P, F, C>,
            (manager, tasks, encode, clock),
            outcome,
        ),
        tasks@.len() == 0 || !old(manager)@.active.contains_key(tasks@[0].partition.job_id@),
    ensures
        outcome matches Err(BallistaError::General(text)) && text@ == if tasks@.len() == 0 {
            "Cannot prepare multi task definition for an empty vec"@
        } else {
            "Cannot prepare multi task definition for job "@ + tasks@[0].partition.job_id@
                + " which is not in active cache"@
        },
        final(manager)@ == old(manager)@,
{
}

/// Tasks of an active job share one definition, which tells every one of them:
/// with the cached plan of the first task's stage, or else with what the encoder
/// gives of the first task's plan, and with the clock's time; an error of the
/// encoder is the outcome.
pub proof fn law_tasks_of_active_job_are_prepared<
    E,
    P,
    F: FnOnce(&P) -> Result<Vec<u8>, BallistaError<E>>,
    C: FnOnce() -> u64,
>(
    manager: &mut TaskManager,
    tasks: Vec<TaskDescription<P>>,
    encode: F,
    clock: C,
    outcome: Result<Vec<MultiTaskDefinition>, BallistaError<E>>,
)
    requires
        call_ensures(
            TaskManager::prepare_multi_task_definition::<E, P, F, C>,
            (manager, tasks, encode, clock),
            outcome,
        ),
        tasks@.len() > 0,
        old(manager)@.active.contains_key(tasks@[0].partition.job_id@),
    ensures
        outcome matches Ok(definitions) ==> {
            &&& definitions@.len() == 1
            &&& tells_all_tasks(tasks@, definitions@[0])
            &&& call_ensures(clock, (), definitions@[0].launch_time)
        },
        ({
            let plans = old(manager)@.active[tasks@[0].partition.job_id@].plans;
            if old(manager)@.caches_plans && plans.contains_key(tasks@[0].partition.stage_id) {
                &&& outcome matches Ok(definitions)
                &&& definitions@[0].plan@ == plans[tasks@[0].partition.stage_id]
            } else {
                call_ensures(
                    encode,
                    (&tasks@[0].plan,),
                    match outcome {
                        Ok(definitions) => Ok(definitions@[0].plan),
                        Err(error) => Err(error),
                    },
                )
            }
        }),
        plan_kept(
            old(manager)@,
            final(manager)@,
            tasks@[0].partition.job_id@,
            tasks@[0].partition.stage_id,
            match outcome {
                Ok(definitions) => Some(definitions@[0].plan@),
                Err(_) => None,
            },
        ),
{
    assert(final(manager)@.active.dom() =~= old(manager)@.active.dom());
}

/// Whether an outcome fits one stage that was to be launched, in a manager that
/// was in the state `manager` when the launch began: a stage without tasks, or
/// of a job that is not active, is refused with its message; any other has one
/// definition that tells every one of its tasks, or an error of the encoder; and
/// if its plan was cached it has the definition, with that plan.
pub open spec fn fits_stage<E, P, F: Fn(&P) -> Result<Vec<u8>, BallistaError<E>>, C: Fn() -> u64>(
    manager: Manager,
    tasks: Seq<TaskDescription<P>>,
    encode: F,
    clock: C,
    outcome: Result<Vec<MultiTaskDefinition>, BallistaError<E>>,
) -> bool {
    if tasks.len() == 0 {
        outcome matches Err(BallistaError::General(text)) && text@
            == "Cannot prepare multi task definition for an empty vec"@
    } else {
        let first = tasks[0].partition;
        if !manager.active.contains_key(first.job_id@) {
            outcome matches Err(BallistaError::General(text)) && text@
                == "Cannot prepare multi task definition for job "@ + first.job_id@
                + " which is not in active cache"@
        } else {
            let plans = manager.active[first.job_id@].plans;
            &&& match outcome {
                Ok(definitions) => {
                    &&& definitions@.len() == 1
                    &&& tells_all_tasks(tasks, definitions@[0])
                    &&& call_ensures(clock, (), definitions@[0].launch_time)
                },
                Err(error) => call_ensures(encode, (&tasks[0].plan,), Err(error)),
            }
            &&& manager.caches_plans && plans.contains_key(first.stage_id) ==> (
            outcome matches Ok(definitions) && definitions@[0].plan@ == plans[first.stage_id])
            &&& !manager.caches_plans ==> (outcome matches Ok(definitions) ==> call_ensures(
                encode,
                (&tasks[0].plan,),
                Ok(definitions@[0].plan),
            ))
        }
    }
}

/// Whether the encoder gave `bytes` for the plan of one of the first `n` groups
/// of tasks, which is a group of the given job and stage.
pub open spec fn given_by_encoder<E, P, F: Fn(&P) -> Result<Vec<u8>, BallistaError<E>>>(
    tasks: Seq<Vec<TaskDescription<P>>>,
    n: int,
    encode: F,
    job_id: Seq<char>,
    stage_id: usize,
    bytes: Seq<u8>,
) -> bool {
    exists|k: int, plan: Vec<u8>|
        {
            &&& 0 <= k < n
            &&& tasks[k]@.len() > 0
            &&& tasks[k]@[0].partition.job_id@ == job_id
            &&& tasks[k]@[0].partition.stage_id == stage_id
            &&& #[trigger] call_ensures(encode, (&tasks[k]@[0].plan,), Ok(plan))
            &&& plan@ == bytes
        }
}

/// Whether the plan of a stage is the one that was cached when a launch began, or
/// one that the encoder gave for a group of the same stage among the first `n`.
pub open spec fn plan_has_origin<E, P, F: Fn(&P) -> Result<Vec<u8>, BallistaError<E>>>(
    manager: Manager,
    tasks: Seq<Vec<TaskDescription<P>>>,
    n: int,
    encode: F,
    job_id: Seq<char>,
    stage_id: usize,
    bytes: Seq<u8>,
) -> bool {
    let plans = manager.active[job_id].plans;
    if manager.caches_plans && plans.contains_key(stage_id) {
        bytes == plans[stage_id]
    } else {
        given_by_encoder(tasks, n, encode, job_id, stage_id, bytes)
    }
}

/// Whether outcomes fit the stages that were to be launched, one for each, and
/// each definition has a plan of its own stage.
pub open spec fn fits_stages<E, P, F: Fn(&P) -> Result<Vec<u8>, BallistaError<E>>, C: Fn() -> u64>(
    manager: Manager,
    tasks: Seq<Vec<TaskDescription<P>>>,
    encode: F,
    clock: C,
    outcomes: Seq<Result<Vec<MultiTaskDefinition>, BallistaError<E>>>,
) -> bool {
    &&& outcomes.len() == tasks.len()
    &&& forall|i: int|
        0 <= i < tasks.len() ==> fits_stage(
            manager,
            tasks[i]@,
            encode,
            clock,
            #[trigger] outcomes[i],
        )
    &&& forall|i: int|
        0 <= i < tasks.len() ==> (#[trigger] outcomes[i] matches Ok(definitions)
            ==> plan_has_origin(
            manager,
            tasks,
            i + 1,
            encode,
            tasks[i]@[0].partition.job_id@,
            tasks[i]@[0].partition.stage_id,
            definitions@[0].plan@,
        ))
}

/// A launch treats each stage by itself, and loses none: the tasks to launch are
/// the definitions of the stages, one list behind the other, for the given
/// executor, or nothing if there is none; the errors are those of the other
/// stages. So each stage has one definition, which tells every one of its tasks,
/// or one error. Of the manager, nothing changes but that plans which the encoder
/// gave are cached for their stages.
pub proof fn law_launch_loses_no_stage<
    E,
    P,
    F: Fn(&P) -> Result<Vec<u8>, BallistaError<E>>,
    C: Fn() -> u64,
>(
    manager: &mut TaskManager,
    executor: ExecutorMetadata,
    tasks: Vec<Vec<TaskDescription<P>>>,
    encode: F,
    clock: C,
    out: (Option<Launch>, Vec<BallistaError<E>>),
)
    requires
        call_ensures(
            TaskManager::launch_multi_task::<E, P, F, C>,
            (manager, &executor, tasks, encode, clock),
            out,
        ),
    ensures
        exists|outcomes: Seq<Result<Vec<MultiTaskDefinition>, BallistaError<E>>>| #[trigger]
            fits_stages(old(manager)@, tasks@, encode, clock, outcomes) && {
                let definitions = Seq::new(
                    outcomes.len(),
                    |i: int|
                        match outcomes[i] {
                            Ok(definitions) => definitions@,
                            Err(_) => Seq::<MultiTaskDefinition>::empty(),
                        },
                ).flatten();
                let errors = Seq::new(
                    outcomes.len(),
                    |i: int|
                        match outcomes[i] {
                            Ok(_) => Seq::<BallistaError<E>>::empty(),
                            Err(error) => seq![error],
                        },
                ).flatten();
                &&& out.0 is Some <==> definitions.len() > 0
                &&& (out.0 matches Some(launch) ==> launch.tasks@ == definitions
                    && launch.executor == executor)
                &&& out.1@ == errors
            },
        match out.0 {
            Some(launch) => launch.tasks@.len() + out.1@.len() == tasks@.len(),
            None => out.1@.len() == tasks@.len(),
        },
        final(manager)@.active.dom() == old(manager)@.active.dom(),
        final(manager)@.controls == old(manager)@.controls,
        final(manager)@.scheduler_id == old(manager)@.scheduler_id,
        final(manager)@.caches_plans == old(manager)@.caches_plans,
        forall|job_id: Seq<char>| #[trigger]
            old(manager)@.active.contains_key(job_id) ==> {
                &&& final(manager)@.active[job_id].execution_graph == old(
                    manager,
                )@.active[job_id].execution_graph
                &&& final(manager)@.active[job_id].status == old(manager)@.active[job_id].status
            },
        forall|job_id: Seq<char>, stage: usize|
            old(manager)@.active.contains_key(job_id)
                && #[trigger] old(manager)@.active[job_id].plans.contains_key(stage) ==> {
                &&& final(manager)@.active[job_id].plans.contains_key(stage)
                &&& final(manager)@.active[job_id].plans[stage] == old(
                    manager,
                )@.active[job_id].plans[stage]
            },
        forall|job_id: Seq<char>, stage: usize|
            old(manager)@.active.contains_key(job_id)
                && #[trigger] final(manager)@.active[job_id].plans.contains_key(stage)
                && !old(manager)@.active[job_id].plans.contains_key(stage)
                ==> given_by_encoder(
                tasks@,
                tasks@.len() as int,
                encode,
                job_id,
                stage,
                final(manager)@.active[job_id].plans[stage],
            ),
{
    let (states, outcomes) = choose|
        states: Seq<Manager>,
        outcomes: Seq<Result<Vec<MultiTaskDefinition>, BallistaError<E>>>,
    | #[trigger]
        stages_prepared(states, tasks@, encode, clock, outcomes) && {
            &&& states[0] == old(manager)@
            &&& states.last() == final(manager)@
            &&& match out.0 {
                Some(launch) => {
                    &&& launch.executor == executor
                    &&& launch.tasks@.len() > 0
                    &&& launch.tasks@ == definitions_of(outcomes)
                },
                None => definitions_of(outcomes).len() == 0,
            }
            &&& out.1@ == errors_of(outcomes)
        };
    assert forall|i: int| 0 <= i < tasks@.len() implies fits_stage(
        old(manager)@,
        tasks@[i]@,
        encode,
        clock,
        #[trigger] outcomes[i],
    ) by {
        lemma_states_grow(states, tasks@, encode, clock, outcomes, i);
        assert(tasks_prepared(
            states[i],
            states[i + 1],
            tasks@[i]@,
            |given: Result<Vec<u8>, BallistaError<E>>|
                call_ensures(encode, (&tasks@[i]@[0].plan,), given),
            |time: u64| call_ensures(clock, (), time),
            outcomes[i],
        ));
    }
    assert forall|i: int| 0 <= i < tasks@.len() implies (#[trigger] outcomes[i] matches Ok(
        definitions,
    ) ==> plan_has_origin(
        old(manager)@,
        tasks@,
        i + 1,
        encode,
        tasks@[i]@[0].partition.job_id@,
        tasks@[i]@[0].partition.stage_id,
        definitions@[0].plan@,
    )) by {
        if outcomes[i] is Ok {
            lemma_outcome_has_origin(states, tasks@, encode, clock, outcomes, i);
        }
    }
    lemma_states_grow(states, tasks@, encode, clock, outcomes, tasks@.len() as int);
    lemma_plans_have_origin(states, tasks@, encode, clock, outcomes, tasks@.len() as int);
    lemma_flattened(outcomes);
    assert(fits_stages(old(manager)@, tasks@, encode, clock, outcomes));
    crate::laws::law_every_stage_is_accounted_for(states, tasks@, encode, clock, outcomes);
}

/// While stages are prepared, jobs stay active with their graphs and statuses,
/// and cached plans stay cached.
proof fn lemma_states_grow<
    E,
    P,
    F: Fn(&P) -> Result<Vec<u8>, BallistaError<E>>,
    C: Fn() -> u64,
>(
    states: Seq<Manager>,
    tasks: Seq<Vec<TaskDescription<P>>>,
    encode: F,
    clock: C,
    outcomes: Seq<Result<Vec<MultiTaskDefinition>, BallistaError<E>>>,
    at: int,
)
    requires
        stages_prepared(states, tasks, encode, clock, outcomes),
        0 <= at <= tasks.len(),
    ensures
        states[at].active.dom() == states[0].active.dom(),
        states[at].controls == states[0].controls,
        states[at].scheduler_id == states[0].scheduler_id,
        states[at].caches_plans == states[0].caches_plans,
        forall|job_id: Seq<char>| #[trigger]
            states[0].active.contains_key(job_id) ==> {
                let now = states[at].active[job_id];
                let earlier = states[0].active[job_id];
                &&& now.execution_graph == earlier.execution_graph
                &&& now.status == earlier.status
                &&& forall|stage: usize| #[trigger]
                    earlier.plans.contains_key(stage) ==> now.plans.contains_key(stage)
                        && now.plans[stage] == earlier.plans[stage]
            },
    decreases at,
{
    if at > 0 {
        lemma_states_grow(states, tasks, encode, clock, outcomes, at - 1);
        let i = at - 1;
        assert(tasks_prepared(
            states[i],
            states[i + 1],
            tasks[i]@,
            |given: Result<Vec<u8>, BallistaError<E>>|
                call_ensures(encode, (&tasks[i]@[0].plan,), given),
            |time: u64| call_ensures(clock, (), time),
            outcomes[i],
        ));
        assert(states[at].active.dom() =~= states[0].active.dom());
    }
}

/// Every plan that is cached after some stages were prepared was cached before, or
/// was given by the encoder for one of them.
proof fn lemma_plans_have_origin<
    E,
    P,
    F: Fn(&P) -> Result<Vec<u8>, BallistaError<E>>,
    C: Fn() -> u64,
>(
    states: Seq<Manager>,
    tasks: Seq<Vec<TaskDescription<P>>>,
    encode: F,
    clock: C,
    outcomes: Seq<Result<Vec<MultiTaskDefinition>, BallistaError<E>>>,
    at: int,
)
    requires
        stages_prepared(states, tasks, encode, clock, outcomes),
        0 <= at <= tasks.len(),
    ensures
        forall|job_id: Seq<char>, stage: usize|
            states[0].active.contains_key(job_id)
                && #[trigger] states[at].active[job_id].plans.contains_key(stage)
                && !states[0].active[job_id].plans.contains_key(stage) ==> given_by_encoder(
                tasks,
                at,
                encode,
                job_id,
                stage,
                states[at].active[job_id].plans[stage],
            ),
    decreases at,
{
    if at > 0 {
        let i = at - 1;
        lemma_plans_have_origin(states, tasks, encode, clock, outcomes, i);
        lemma_states_grow(states, tasks, encode, clock, outcomes, i);
        assert(tasks_prepared(
            states[i],
            states[i + 1],
            tasks[i]@,
            |given: Result<Vec<u8>, BallistaError<E>>|
                call_ensures(encode, (&tasks[i]@[0].plan,), given),
            |time: u64| call_ensures(clock, (), time),
            outcomes[i],
        ));
        assert forall|job_id: Seq<char>, stage: usize|
            states[0].active.contains_key(job_id)
                && #[trigger] states[at].active[job_id].plans.contains_key(stage)
                && !states[0].active[job_id].plans.contains_key(
                stage,
            ) implies given_by_encoder(
            tasks,
            at,
            encode,
            job_id,
            stage,
            states[at].active[job_id].plans[stage],
        ) by {
            if states[i].active[job_id].plans.contains_key(stage) {
                let bytes = states[i].active[job_id].plans[stage];
                assert(given_by_encoder(tasks, i, encode, job_id, stage, bytes));
                let (k, plan) = choose|k: int, plan: Vec<u8>|
                    {
                        &&& 0 <= k < i
                        &&& tasks[k]@.len() > 0
                        &&& tasks[k]@[0].partition.job_id@ == job_id
                        &&& tasks[k]@[0].partition.stage_id == stage
                        &&& #[trigger] call_ensures(encode, (&tasks[k]@[0].plan,), Ok(plan))
                        &&& plan@ == bytes
                    };
                assert(call_ensures(encode, (&tasks[k]@[0].plan,), Ok(plan)));
            } else {
                let plan = outcomes[i]->Ok_0@[0].plan;
                assert(call_ensures(encode, (&tasks[i]@[0].plan,), Ok(plan)));
            }
        }
    }
}

/// The plan of a prepared stage was cached before, or was given by the encoder.
proof fn lemma_outcome_has_origin<
    E,
    P,
    F: Fn(&P) -> Result<Vec<u8>, BallistaError<E>>,
    C: Fn() -> u64,
>(
    states: Seq<Manager>,
    tasks: Seq<Vec<TaskDescription<P>>>,
    encode: F,
    clock: C,
    outcomes: Seq<Result<Vec<MultiTaskDefinition>, BallistaError<E>>>,
    i: int,
)
    requires
        stages_prepared(states, tasks, encode, clock, outcomes),
        0 <= i < tasks.len(),
        outcomes[i] is Ok,
    ensures
        plan_has_origin(
            states[0],
            tasks,
            i + 1,
            encode,
            tasks[i]@[0].partition.job_id@,
            tasks[i]@[0].partition.stage_id,
            outcomes[i]->Ok_0@[0].plan@,
        ),
{
    lemma_plans_have_origin(states, tasks, encode, clock, outcomes, i);
    lemma_states_grow(states, tasks, encode, clock, outcomes, i);
    assert(tasks_prepared(
        states[i],
        states[i + 1],
        tasks[i]@,
        |given: Result<Vec<u8>, BallistaError<E>>|
            call_ensures(encode, (&tasks[i]@[0].plan,), given),
        |time: u64| call_ensures(clock, (), time),
        outcomes[i],
    ));
    let job_id = tasks[i]@[0].partition.job_id@;
    let stage = tasks[i]@[0].partition.stage_id;
    let plan = outcomes[i]->Ok_0@[0].plan;
    assert(states[0].active.contains_key(job_id));
    if states[i].caches_plans && states[i].active[job_id].plans.contains_key(stage) {
        if !states[0].active[job_id].plans.contains_key(stage) {
            assert(given_by_encoder(tasks, i, encode, job_id, stage, plan@));
            let (k, given) = choose|k: int, given: Vec<u8>|
                {
                    &&& 0 <= k < i
                    &&& tasks[k]@.len() > 0
                    &&& tasks[k]@[0].partition.job_id@ == job_id
                    &&& tasks[k]@[0].partition.stage_id == stage
                    &&& #[trigger] call_ensures(encode, (&tasks[k]@[0].plan,), Ok(given))
                    &&& given@ == plan@
                };
            assert(call_ensures(encode, (&tasks[k]@[0].plan,), Ok(given)));
        }
    } else {
        assert(call_ensures(encode, (&tasks[i]@[0].plan,), Ok(plan)));
    }
}

/// Definitions and errors are collected one list behind the other.
proof fn lemma_flattened<E>(outcomes: Seq<Result<Vec<MultiTaskDefinition>, BallistaError<E>>>)
    ensures
        definitions_of(outcomes) == Seq::new(
            outcomes.len(),
            |i: int|
                match outcomes[i] {
                    Ok(definitions) => definitions@,
                    Err(_) => Seq::<MultiTaskDefinition>::empty(),
                },
        ).flatten(),
        errors_of(outcomes) == Seq::new(
            outcomes.len(),
            |i: int|
                match outcomes[i] {
                    Ok(_) => Seq::<BallistaError<E>>::empty(),
                    Err(error) => seq![error],
                },
        ).flatten(),
    decreases outcomes.len(),
{
    let definitions = |outcomes: Seq<Result<Vec<MultiTaskDefinition>, BallistaError<E>>>|
        Seq::new(
            outcomes.len(),
            |i: int|
                match outcomes[i] {
                    Ok(definitions) => definitions@,
                    Err(_) => Seq::<MultiTaskDefinition>::empty(),
                },
        );
    let errors = |outcomes: Seq<Result<Vec<MultiTaskDefinition>, BallistaError<E>>>|
        Seq::new(
            outcomes.len(),
            |i: int|
                match outcomes[i] {
                    Ok(_) => Seq::<BallistaError<E>>::empty(),
                    Err(error) => seq![error],
                },
        );
    if outcomes.len() == 0 {
        assert(definitions(outcomes).flatten() =~= definitions_of(outcomes));
        assert(errors(outcomes).flatten() =~= errors_of(outcomes));
    } else {
        let shorter = outcomes.drop_last();
        lemma_flattened(shorter);
        let last = match outcomes.last() {
            Ok(definitions) => definitions@,
            Err(_) => Seq::<MultiTaskDefinition>::empty(),
        };
        let last_error = match outcomes.last() {
            Ok(_) => Seq::<BallistaError<E>>::empty(),
            Err(error) => seq![error],
        };
        assert(definitions(outcomes) =~= definitions(shorter).push(last));
        assert(errors(outcomes) =~= errors(shorter).push(last_error));
        definitions(shorter).lemma_flatten_push(last);
        errors(shorter).lemma_flatten_push(last_error);
    }
}

} // verus!
