//! Preparing tasks for launch.
use vstd::prelude::*;

use crate::error::{job_message, message, BallistaError};
use crate::manager::{active_plan_encoded, Manager, TaskManager};
use crate::tasks::{
    define_task, define_tasks, defines_tasks, task_definition, ExecutorMetadata,
    MultiTaskDefinition, TaskDefinition, TaskDescription,
};

verus! {

/// Tasks that have to be launched on an executor.
#[derive(Debug, PartialEq, Eq)]
pub struct Launch {
    /// The executor.
    pub executor: ExecutorMetadata,
    /// The tasks.
    pub tasks: Vec<MultiTaskDefinition>,
}

/// The message of a task whose job is not active.
pub open spec fn task_of_inactive_job(job_id: Seq<char>) -> Seq<char> {
    message(
        "Cannot prepare task definition for job "@,
        job_id,
        " which is not in active cache"@,
    )
}

/// The message of tasks whose job is not active.
pub open spec fn tasks_of_inactive_job(job_id: Seq<char>) -> Seq<char> {
    message(
        "Cannot prepare multi task definition for job "@,
        job_id,
        " which is not in active cache"@,
    )
}

/// The message of a stage without tasks.
pub open spec fn no_tasks() -> Seq<char> {
    "Cannot prepare multi task definition for an empty vec"@
}

/// Whether a request is refused with the given message and changes nothing.
pub open spec fn refused<D, E>(
    before: Manager,
    after: Manager,
    text: Seq<char>,
    outcome: Result<D, BallistaError<E>>,
) -> bool {
    &&& after == before
    &&& outcome matches Err(BallistaError::General(given))
    &&& given@ == text
}

/// What it means to prepare one task: its job has to be active; the plan of
/// its stage is the cached one or one that the encoder may give; an error of
/// the encoder is the outcome. `now` holds of the times that the clock may
/// show.
pub open spec fn task_prepared<E, P>(
    before: Manager,
    after: Manager,
    task: TaskDescription<P>,
    encodes: spec_fn(Result<Vec<u8>, BallistaError<E>>) -> bool,
    now: spec_fn(u64) -> bool,
    outcome: Result<TaskDefinition, BallistaError<E>>,
) -> bool {
    let job_id = task.partition.job_id@;
    if before.active.contains_key(job_id) {
        let encoded = match outcome {
            Ok(definition) => Ok(definition.plan),
            Err(error) => Err(error),
        };
        &&& active_plan_encoded(before, after, job_id, task.partition.stage_id, encodes, encoded)
        &&& outcome matches Ok(definition) ==> {
            &&& definition == task_definition(task, definition.plan, definition.launch_time)
            &&& now(definition.launch_time)
        }
    } else {
        refused(before, after, task_of_inactive_job(job_id), outcome)
    }
}

/// What it means to prepare the tasks of one stage together: as for one task,
/// with the first task standing for all. The outcome is a single definition.
pub open spec fn tasks_prepared<E, P>(
    before: Manager,
    after: Manager,
    tasks: Seq<TaskDescription<P>>,
    encodes: spec_fn(Result<Vec<u8>, BallistaError<E>>) -> bool,
    now: spec_fn(u64) -> bool,
    outcome: Result<Vec<MultiTaskDefinition>, BallistaError<E>>,
) -> bool {
    let first = tasks[0].partition;
    if tasks.len() == 0 {
        refused(before, after, no_tasks(), outcome)
    } else if before.active.contains_key(first.job_id@) {
        let encoded = match outcome {
            Ok(definitions) => Ok(definitions[0].plan),
            Err(error) => Err(error),
        };
        &&& active_plan_encoded(before, after, first.job_id@, first.stage_id, encodes, encoded)
        &&& outcome matches Ok(definitions) ==> {
            &&& definitions.len() == 1
            &&& defines_tasks(tasks, definitions[0])
            &&& now(definitions[0].launch_time)
        }
    } else {
        refused(before, after, tasks_of_inactive_job(first.job_id@), outcome)
    }
}

/// Whether preparing the tasks of one stage needs the clock: there are tasks,
/// and their job is active.
pub open spec fn needs_clock<P>(manager: Manager, tasks: Seq<TaskDescription<P>>) -> bool {
    tasks.len() > 0 && manager.active.contains_key(tasks[0].partition.job_id@)
}

/// Whether preparing the tasks of one stage needs the encoder: there are tasks,
/// their job is active, and the plan of their stage is not cached.
pub open spec fn needs_encoder<P>(manager: Manager, tasks: Seq<TaskDescription<P>>) -> bool {
    tasks.len() > 0 && manager.needs_plan(
        tasks[0].partition.job_id@,
        tasks[0].partition.stage_id,
    )
}

/// Whether the stages of `tasks` were prepared one after the other, with the
/// given outcomes. `states` are the states of the manager in between.
pub open spec fn stages_prepared<
    E,
    P,
    F: Fn(&P) -> Result<Vec<u8>, BallistaError<E>>,
    C: Fn() -> u64,
>(
    states: Seq<Manager>,
    tasks: Seq<Vec<TaskDescription<P>>>,
    encode: F,
    clock: C,
    outcomes: Seq<Result<Vec<MultiTaskDefinition>, BallistaError<E>>>,
) -> bool {
    &&& outcomes.len() == tasks.len()
    &&& states.len() == tasks.len() + 1
    &&& forall|i: int|
        0 <= i < tasks.len() ==> tasks_prepared(
            states[i],
            states[i + 1],
            tasks[i]@,
            |given: Result<Vec<u8>, BallistaError<E>>| encode.ensures((&tasks[i]@[0].plan,), given),
            |time: u64| clock.ensures((), time),
            #[trigger] outcomes[i],
        )
}

/// The definitions among outcomes, in their order.
pub open spec fn definitions_of<E>(
    outcomes: Seq<Result<Vec<MultiTaskDefinition>, BallistaError<E>>>,
) -> Seq<MultiTaskDefinition>
    decreases outcomes.len(),
{
    if outcomes.len() == 0 {
        seq![]
    } else {
        definitions_of(outcomes.drop_last()) + match outcomes.last() {
            Ok(definitions) => definitions@,
            Err(_) => seq![],
        }
    }
}

/// The errors among outcomes, in their order.
pub open spec fn errors_of<E>(
    outcomes: Seq<Result<Vec<MultiTaskDefinition>, BallistaError<E>>>,
) -> Seq<BallistaError<E>>
    decreases outcomes.len(),
{
    if outcomes.len() == 0 {
        seq![]
    } else {
        errors_of(outcomes.drop_last()) + match outcomes.last() {
            Ok(_) => seq![],
            Err(error) => seq![error],
        }
    }
}

impl TaskManager {
    /// Prepares the definition of one task. `encode` encodes the task's plan, and
    /// is only called if no plan of the stage is cached; `clock` gives the time
    /// in milliseconds since the epoch.
    pub fn prepare_task_definition<
        E,
        P,
        F: FnOnce(&P) -> Result<Vec<u8>, BallistaError<E>>,
        C: FnOnce() -> u64,
    >(&mut self, task: TaskDescription<P>, encode: F, clock: C) -> (outcome: Result<
        TaskDefinition,
        BallistaError<E>,
    >)
        requires
            old(self)@.needs_plan(task.partition.job_id@, task.partition.stage_id)
                ==> encode.requires((&task.plan,)),
            old(self)@.active.contains_key(task.partition.job_id@) ==> clock.requires(()),
        ensures
            task_prepared(
                old(self)@,
                final(self)@,
                task,
                |given: Result<Vec<u8>, BallistaError<E>>| encode.ensures((&task.plan,), given),
                |time: u64| clock.ensures((), time),
                outcome,
            ),
    {
        let job_id = task.partition.job_id.as_str();
        match self.encode_active_plan(job_id, task.partition.stage_id, &task.plan, encode) {
            Some(Ok(plan)) => {
                let launch_time: u64 = clock();
                Ok(define_task(task, plan, launch_time))
            },
            Some(Err(error)) => Err(error),
            None => Err(
                BallistaError::General(
                    job_message(
                        "Cannot prepare task definition for job ",
                        job_id,
                        " which is not in active cache",
                    ),
                ),
            ),
        }
    }

    /// Prepares the definition of several tasks that belong to one stage. The
    /// plan of the first stands for all.
    pub fn prepare_multi_task_definition<
        E,
        P,
        F: FnOnce(&P) -> Result<Vec<u8>, BallistaError<E>>,
        C: FnOnce() -> u64,
    >(&mut self, tasks: Vec<TaskDescription<P>>, encode: F, clock: C) -> (outcome: Result<
        Vec<MultiTaskDefinition>,
        BallistaError<E>,
    >)
        requires
            needs_encoder(old(self)@, tasks@) ==> encode.requires((&tasks@[0].plan,)),
            needs_clock(old(self)@, tasks@) ==> clock.requires(()),
        ensures
            tasks_prepared(
                old(self)@,
                final(self)@,
                tasks@,
                |given: Result<Vec<u8>, BallistaError<E>>| encode.ensures((&tasks@[0].plan,), given),
                |time: u64| clock.ensures((), time),
                outcome,
            ),
    {
        if tasks.len() == 0 {
            return Err(
                BallistaError::General(
                    "Cannot prepare multi task definition for an empty vec".to_owned(),
                ),
            );
        }
        let stage_id: usize = tasks[0].partition.stage_id;
        let job_id = tasks[0].partition.job_id.as_str();
        match self.encode_active_plan(job_id, stage_id, &tasks[0].plan, encode) {
            Some(Ok(plan)) => {
                let launch_time: u64 = clock();
                let mut definitions: Vec<MultiTaskDefinition> = Vec::new();
                definitions.push(define_tasks(tasks, plan, launch_time));
                Ok(definitions)
            },
            Some(Err(error)) => Err(error),
            None => Err(
                BallistaError::General(
                    job_message(
                        "Cannot prepare multi task definition for job ",
                        job_id,
                        " which is not in active cache",
                    ),
                ),
            ),
        }
    }

    /// Prepares the tasks of several stages for launch on one executor. Returns
    /// what has to be launched, or nothing if that is empty, and the errors of
    /// the stages that could not be prepared; those do not hold up the others.
    pub fn launch_multi_task<
        E,
        P,
        F: Fn(&P) -> Result<Vec<u8>, BallistaError<E>>,
        C: Fn() -> u64,
    >(
        &mut self,
        executor: &ExecutorMetadata,
        tasks: Vec<Vec<TaskDescription<P>>>,
        encode: F,
        clock: C,
    ) -> (out: (Option<Launch>, Vec<BallistaError<E>>))
        requires
            forall|i: int|
                0 <= i < tasks.len() && needs_encoder(old(self)@, (#[trigger] tasks[i])@)
                    ==> encode.requires((&tasks[i]@[0].plan,)),
            forall|i: int|
                0 <= i < tasks.len() && needs_clock(old(self)@, (#[trigger] tasks[i])@)
                    ==> clock.requires(()),
        ensures
            exists|
                states: Seq<Manager>,
                outcomes: Seq<Result<Vec<MultiTaskDefinition>, BallistaError<E>>>,
            | #[trigger]
                stages_prepared(states, tasks@, encode, clock, outcomes) && {
                    &&& states[0] == old(self)@
                    &&& states.last() == final(self)@
                    &&& match out.0 {
                        Some(launch) => {
                            &&& launch.executor == *executor
                            &&& launch.tasks@.len() > 0
                            &&& launch.tasks@ == definitions_of(outcomes)
                        },
                        None => definitions_of(outcomes).len() == 0,
                    }
                    &&& out.1@ == errors_of(outcomes)
                },
    {
        let ghost all = tasks@;
        let mut definitions: Vec<MultiTaskDefinition> = Vec::new();
        let mut errors: Vec<BallistaError<E>> = Vec::new();
        let ghost mut states: Seq<Manager> = seq![self@];
        let ghost mut outcomes: Seq<Result<Vec<MultiTaskDefinition>, BallistaError<E>>> = seq![];
        for stage_tasks in it: tasks
            invariant
                it.seq() == all,
                forall|i: int|
                    0 <= i < all.len() && needs_encoder(old(self)@, (#[trigger] all[i])@)
                        ==> encode.requires((&all[i]@[0].plan,)),
                forall|i: int|
                    0 <= i < all.len() && needs_clock(old(self)@, (#[trigger] all[i])@)
                        ==> clock.requires(()),
                forall|tasks: Seq<TaskDescription<P>>|
                    #![trigger needs_encoder(self@, tasks)]
                    needs_encoder(self@, tasks) ==> needs_encoder(old(self)@, tasks),
                self@.active.dom() == old(self)@.active.dom(),
                stages_prepared(states, all.take(it.index() as int), encode, clock, outcomes),
                states[0] == old(self)@,
                states.last() == self@,
                definitions@ == definitions_of(outcomes),
                errors@ == errors_of(outcomes),
        {
            let ghost stage = stage_tasks;
            let ghost before = self@;
            let ghost earlier = outcomes;
            assert(all[it.index() as int] == stage);
            let encode_stage = |plan: &P| -> (given: Result<Vec<u8>, BallistaError<E>>)
                requires
                    encode.requires((plan,)),
                ensures
                    encode.ensures((plan,), given),
                { encode(plan) };
            let read_clock = || -> (time: u64)
                requires
                    clock.requires(()),
                ensures
                    clock.ensures((), time),
                { clock() };
            let outcome = self.prepare_multi_task_definition(stage_tasks, encode_stage, read_clock);
            proof {
                assert forall|tasks: Seq<TaskDescription<P>>|
                    #![trigger needs_encoder(self@, tasks)]
                    needs_encoder(self@, tasks) implies needs_encoder(old(self)@, tasks) by {
                    assert(needs_encoder(before, tasks));
                }
                states = states.push(self@);
                outcomes = outcomes.push(outcome);
                assert(all.take(it.index() as int + 1) =~= all.take(it.index() as int).push(stage));
                assert(outcomes.drop_last() =~= earlier);
                assert forall|i: int| 0 <= i < all.take(it.index() as int + 1).len() implies tasks_prepared(
                    states[i],
                    states[i + 1],
                    all.take(it.index() as int + 1)[i]@,
                    |given: Result<Vec<u8>, BallistaError<E>>| encode.ensures((&all.take(it.index() as int + 1)[i]@[0].plan,), given),
                    |time: u64| clock.ensures((), time),
                    #[trigger] outcomes[i],
                ) by {
                    if i < it.index() {
                        assert(earlier[i] == outcomes[i]);
                    }
                }
            }
            match outcome {
                Ok(stage_definitions) => {
                    let mut stage_definitions = stage_definitions;
                    definitions.append(&mut stage_definitions);
                },
                Err(error) => {
                    errors.push(error);
                },
            }
        }
        assert(all.take(all.len() as int) =~= all);
        if definitions.len() > 0 {
            (Some(Launch { executor: executor.clone(), tasks: definitions }), errors)
        } else {
            (None, errors)
        }
    }
}

} // verus!
