//! Preparing and launching tasks.
use std::cell::Cell;
use std::sync::Arc;

use datafusion::arrow::datatypes::Schema;
use datafusion::error::DataFusionError;
use datafusion::physical_plan::empty::EmptyExec;
use datafusion_proto::physical_plan::{AsExecutionPlan, DefaultPhysicalExtensionCodec};
use datafusion_proto::protobuf::PhysicalPlanNode;
use task_manager::cache::JobInfoCache;
use task_manager::encoding::encode_plan;
use task_manager::error::BallistaError;
use task_manager::graph::ExecutionGraph;
use task_manager::lifecycle::{JobLifecycleControl, JobLifecyclePhase};
use task_manager::manager::TaskManager;
use task_manager::status::{JobStatus, StateDetails, Status};
use task_manager::submission::{Reviving, SubmitRequest, SubmitStep};
use task_manager::tasks::{
    DefaultTaskLauncher, ExecutorMetadata, KeyValuePair, MultiTaskDefinition, PartitionId,
    TaskDefinition, TaskDescription, TaskId,
};

fn details() -> StateDetails {
    Arc::new(vec![4, 2])
}

type Encoded = Result<Vec<u8>, BallistaError<String>>;

fn graph(id: u64, job_id: &str) -> ExecutionGraph {
    ExecutionGraph {
        id,
        job_id: job_id.to_owned(),
        job_name: "job".to_owned(),
        status: JobStatus {
            job_id: job_id.to_owned(),
            job_name: "job".to_owned(),
            status: Some(Status::Running(details())),
        },
        start_time: 0,
        end_time: 0,
        stage_count: 0,
        completed_stages: 0,
    }
}

fn manager_of(job_id: &str) -> TaskManager {
    with_job(TaskManager::new("s".to_owned()), job_id)
}

fn with_job(mut manager: TaskManager, job_id: &str) -> TaskManager {
    let mut control = JobLifecycleControl {
        phase: JobLifecyclePhase::Publishing,
        publication_finished: false,
    };
    let request = SubmitRequest {
        job_id: job_id.to_owned(),
        job_name: "job".to_owned(),
        session_id: "session".to_owned(),
        queued_at: 0,
        adaptive_planning: false,
    };
    let (step, _): (SubmitStep<String>, _) =
        Reviving { request, graph: 1 }.revived(
            &mut manager,
            &mut control,
            &graph(1, job_id).status,
        );
    assert_eq!(step, SubmitStep::Finished(Ok(())));
    manager
}

fn props() -> Vec<KeyValuePair> {
    vec![KeyValuePair { key: "k".to_owned(), value: Some("v".to_owned()) }]
}

fn task(job_id: &str, stage_id: usize, partition_id: usize, task_id: usize) -> TaskDescription<u8> {
    TaskDescription {
        session_id: "session".to_owned(),
        partition: PartitionId { job_id: job_id.to_owned(), stage_id, partition_id },
        stage_attempt_num: 3,
        task_id,
        task_attempt: 2,
        plan: task_id as u8,
        props: props(),
    }
}

/// Encodes a plan as itself, twice.
fn twice(plan: &u8) -> Encoded {
    Ok(vec![*plan, *plan])
}

fn executor() -> ExecutorMetadata {
    ExecutorMetadata { id: "executor".to_owned() }
}

#[test]
fn plan_is_encoded_once() {
    let calls = Cell::new(0);
    let mut info = JobInfoCache::new(&graph(1, "j"));
    let encode = |bytes: Vec<u8>| {
        calls.set(calls.get() + 1);
        Ok(bytes)
    };
    let first: Encoded = info.encode_stage_plan(4, &0u8, |_| encode(vec![1, 2]));
    let second: Encoded = info.encode_stage_plan(4, &0u8, |_| encode(vec![3]));
    let other: Encoded = info.encode_stage_plan(5, &0u8, |_| encode(vec![4]));
    assert_eq!(first, Ok(vec![1, 2]));
    assert_eq!(second, Ok(vec![1, 2]));
    assert_eq!(other, Ok(vec![4]));
    assert_eq!(calls.get(), 2);
}

#[test]
fn encoded_plan_can_be_decoded() {
    let plan = Arc::new(EmptyExec::new(Arc::new(Schema::empty())).with_partitions(1));
    let node =
        PhysicalPlanNode::try_from_physical_plan(plan, &DefaultPhysicalExtensionCodec {}).unwrap();
    let encoded = encode_plan(Ok(node.clone())).unwrap();
    assert!(!encoded.is_empty());
    assert_eq!(PhysicalPlanNode::try_decode(&encoded).unwrap(), node);
}

#[test]
fn plan_that_cannot_be_sent_is_an_error() {
    let encoded = encode_plan(Err(DataFusionError::Plan("no form".to_owned())));
    assert!(matches!(
        encoded,
        Err(BallistaError::Other(DataFusionError::Plan(text))) if text == "no form"
    ));
}

#[test]
fn failure_to_encode_is_not_cached() {
    let mut info = JobInfoCache::new(&graph(1, "j"));
    let failed: Encoded =
        info.encode_stage_plan(4, &0u8, |_| Err(BallistaError::Other("codec".to_owned())));
    assert_eq!(failed, Err(BallistaError::Other("codec".to_owned())));
    let retried: Encoded = info.encode_stage_plan(4, &0u8, |_| Ok(vec![7]));
    assert_eq!(retried, Ok(vec![7]));
}

#[test]
fn uncached_plan_is_encoded_each_time() {
    let mut info = JobInfoCache::new(&graph(1, "j"));
    let cached: Encoded = info.encode_stage_plan(4, &0u8, |_| Ok(vec![1]));
    assert_eq!(cached, Ok(vec![1]));
    let first: Encoded = JobInfoCache::encode_stage_plan_uncached(&0u8, |_| Ok(vec![2]));
    let second: Encoded = JobInfoCache::encode_stage_plan_uncached(&0u8, |_| Ok(vec![3]));
    assert_eq!(first, Ok(vec![2]));
    assert_eq!(second, Ok(vec![3]));
    let failed: Encoded =
        JobInfoCache::encode_stage_plan_uncached(&0u8, |_| Err(BallistaError::Other("codec".to_owned())));
    assert_eq!(failed, Err(BallistaError::Other("codec".to_owned())));
    let kept: Encoded = info.encode_stage_plan(4, &0u8, |_| Ok(vec![5]));
    assert_eq!(kept, Ok(vec![1]));
}

#[test]
fn prepared_plan_is_kept_for_later_tasks() {
    let mut manager = manager_of("j");
    let first: Result<TaskDefinition, BallistaError<String>> =
        manager.prepare_task_definition(task("j", 4, 0, 1), |_: &u8| Ok(vec![1]), || 0);
    assert_eq!(first.unwrap().plan, vec![1]);
    let second: Result<TaskDefinition, BallistaError<String>> = manager.prepare_task_definition(
        task("j", 4, 1, 2),
        |_: &u8| panic!("the plan is cached"),
        || 0,
    );
    assert_eq!(second.unwrap().plan, vec![1]);
    let (launch, errors) = manager.launch_multi_task(
        &executor(),
        vec![vec![task("j", 4, 2, 3)], vec![], vec![task("gone", 4, 0, 1)]],
        |plan: &u8| -> Encoded { panic!("plan {plan} is not needed") },
        || 0,
    );
    assert_eq!(launch.unwrap().tasks[0].plan, vec![1]);
    assert_eq!(errors.len(), 2);
}

#[test]
fn snapshot_of_cached_job_has_no_plans() {
    let mut info = JobInfoCache::new(&graph(1, "j"));
    let first: Encoded = info.encode_stage_plan(4, &0u8, |_| Ok(vec![1]));
    assert_eq!(first, Ok(vec![1]));
    let mut copy = info.clone();
    assert_eq!(copy.graph(), 1);
    assert_eq!(copy.status(), &Some(Status::Running(details())));
    let again: Encoded = copy.encode_stage_plan(4, &0u8, |_| Ok(vec![2]));
    assert_eq!(again, Ok(vec![2]));
}

#[test]
fn task_definition_holds_the_task() {
    let mut manager = manager_of("j");
    let prepared: Result<TaskDefinition, BallistaError<String>> =
        manager.prepare_task_definition(task("j", 4, 6, 8), |_: &u8| Ok(vec![1, 2]), || 1234);
    assert_eq!(
        prepared,
        Ok(TaskDefinition {
            task_id: 8,
            task_attempt_num: 2,
            job_id: "j".to_owned(),
            stage_id: 4,
            stage_attempt_num: 3,
            partition_id: 6,
            plan: vec![1, 2],
            session_id: "session".to_owned(),
            launch_time: 1234,
            props: props(),
        })
    );
    assert_eq!(manager.get_active_execution_graph("j"), Some(1));
}

#[test]
fn numbers_are_sent_with_their_lower_bits() {
    let mut manager = manager_of("j");
    let wide = (1usize << 32) + 5;
    let prepared: Result<TaskDefinition, BallistaError<String>> =
        manager.prepare_task_definition(task("j", wide, 6, wide), |_: &u8| Ok(vec![]), || 0);
    let definition = prepared.unwrap();
    assert_eq!(definition.task_id, 5);
    assert_eq!(definition.stage_id, 5);
}

#[test]
fn task_of_an_inactive_job_is_refused() {
    let mut manager = TaskManager::new("s".to_owned());
    let prepared: Result<TaskDefinition, BallistaError<String>> =
        manager.prepare_task_definition(task("j", 4, 6, 8), |_: &u8| Ok(vec![]), || 0);
    assert_eq!(
        prepared,
        Err(BallistaError::General(
            "Cannot prepare task definition for job j which is not in active cache".to_owned()
        ))
    );
}

#[test]
fn task_whose_plan_cannot_be_encoded_is_refused() {
    let mut manager = manager_of("j");
    let prepared: Result<TaskDefinition, BallistaError<String>> = manager.prepare_task_definition(
        task("j", 4, 6, 8),
        |_: &u8| Err(BallistaError::Other("codec".to_owned())),
        || 0,
    );
    assert_eq!(prepared, Err(BallistaError::Other("codec".to_owned())));
    assert_eq!(manager.running_job_number(), 1);
}

#[test]
fn tasks_of_a_stage_share_one_definition() {
    let mut manager = manager_of("j");
    let tasks = vec![task("j", 4, 0, 10), task("j", 4, 1, 11)];
    let prepared: Result<Vec<MultiTaskDefinition>, BallistaError<String>> =
        manager.prepare_multi_task_definition(tasks, |_: &u8| Ok(vec![9]), || 55);
    assert_eq!(
        prepared,
        Ok(vec![MultiTaskDefinition {
            task_ids: vec![
                TaskId { task_id: 10, task_attempt_num: 2, partition_id: 0 },
                TaskId { task_id: 11, task_attempt_num: 2, partition_id: 1 },
            ],
            job_id: "j".to_owned(),
            stage_id: 4,
            stage_attempt_num: 3,
            plan: vec![9],
            session_id: "session".to_owned(),
            launch_time: 55,
            props: props(),
        }])
    );
}

#[test]
fn stage_without_tasks_is_refused() {
    let mut manager = manager_of("j");
    let prepared: Result<Vec<MultiTaskDefinition>, BallistaError<String>> =
        manager.prepare_multi_task_definition(vec![], |_: &u8| Ok(vec![]), || 0);
    assert_eq!(
        prepared,
        Err(BallistaError::General(
            "Cannot prepare multi task definition for an empty vec".to_owned()
        ))
    );
}

#[test]
fn tasks_of_an_inactive_job_are_refused() {
    let mut manager = manager_of("other");
    let prepared: Result<Vec<MultiTaskDefinition>, BallistaError<String>> =
        manager.prepare_multi_task_definition(vec![task("j", 4, 0, 1)], |_: &u8| Ok(vec![]), || 0);
    assert_eq!(
        prepared,
        Err(BallistaError::General(
            "Cannot prepare multi task definition for job j which is not in active cache"
                .to_owned()
        ))
    );
}

#[test]
fn refused_stage_does_not_hold_up_the_others() {
    let mut manager = manager_of("j");
    let tasks = vec![
        vec![task("j", 1, 0, 1)],
        vec![],
        vec![task("gone", 2, 0, 2)],
        vec![task("j", 3, 0, 3)],
        vec![task("j", 1, 1, 4)],
    ];
    let (launch, errors) = manager.launch_multi_task(
        &executor(),
        tasks,
        |plan: &u8| -> Encoded {
            if *plan == 3 {
                Err(BallistaError::Other("codec".to_owned()))
            } else {
                twice(plan)
            }
        },
        || 77,
    );
    let launch = launch.unwrap();
    assert_eq!(launch.executor, executor());
    let definitions = launch.tasks;
    assert_eq!(definitions.len() + errors.len(), 5);
    assert_eq!(definitions.len(), 2);
    assert_eq!(definitions[0].stage_id, 1);
    assert_eq!(definitions[0].plan, vec![1, 1]);
    assert_eq!(definitions[1].stage_id, 1);
    assert_eq!(definitions[1].plan, vec![1, 1]);
    assert_eq!(definitions[1].launch_time, 77);
    assert_eq!(
        errors,
        vec![
            BallistaError::General(
                "Cannot prepare multi task definition for an empty vec".to_owned()
            ),
            BallistaError::General(
                "Cannot prepare multi task definition for job gone which is not in active cache"
                    .to_owned()
            ),
            BallistaError::Other("codec".to_owned()),
        ]
    );
}

#[test]
fn nothing_is_launched_without_definitions() {
    let mut manager = manager_of("j");
    let (launch, errors) = manager.launch_multi_task(&executor(), vec![], twice, || 0);
    assert_eq!(launch, None);
    assert!(errors.is_empty());
    let (launch, errors) = manager.launch_multi_task(&executor(), vec![vec![]], twice, || 0);
    assert_eq!(launch, None);
    assert_eq!(errors.len(), 1);
}

#[test]
fn plan_of_the_first_task_is_encoded() {
    let mut manager = manager_of("j");
    let one: Result<TaskDefinition, BallistaError<String>> =
        manager.prepare_task_definition(task("j", 3, 0, 30), twice, || 0);
    assert_eq!(one.unwrap().plan, vec![30, 30]);
    let tasks = vec![task("j", 4, 0, 10), task("j", 4, 1, 11)];
    let many: Result<Vec<MultiTaskDefinition>, BallistaError<String>> =
        manager.prepare_multi_task_definition(tasks, twice, || 0);
    assert_eq!(many.unwrap()[0].plan, vec![10, 10]);
    let (launch, _) = manager.launch_multi_task(
        &executor(),
        vec![vec![task("j", 5, 0, 20), task("j", 5, 1, 21)], vec![task("j", 6, 0, 22)]],
        twice,
        || 0,
    );
    let plans: Vec<Vec<u8>> = launch.unwrap().tasks.into_iter().map(|tasks| tasks.plan).collect();
    assert_eq!(plans, vec![vec![20, 20], vec![22, 22]]);
}

#[test]
fn manager_without_plan_cache_encodes_each_time() {
    let mut manager = with_job(TaskManager::without_plan_cache("s".to_owned()), "j");
    let first: Result<TaskDefinition, BallistaError<String>> =
        manager.prepare_task_definition(task("j", 4, 0, 1), twice, || 0);
    assert_eq!(first.unwrap().plan, vec![1, 1]);
    let second: Result<TaskDefinition, BallistaError<String>> =
        manager.prepare_task_definition(task("j", 4, 0, 2), twice, || 0);
    assert_eq!(second.unwrap().plan, vec![2, 2]);
    let third: Result<Vec<MultiTaskDefinition>, BallistaError<String>> =
        manager.prepare_multi_task_definition(vec![task("j", 4, 0, 3)], twice, || 0);
    assert_eq!(third.unwrap()[0].plan, vec![3, 3]);
    let refused: Result<TaskDefinition, BallistaError<String>> =
        manager.prepare_task_definition(task("gone", 4, 0, 2), twice, || 0);
    assert_eq!(
        refused,
        Err(BallistaError::General(
            "Cannot prepare task definition for job gone which is not in active cache".to_owned()
        ))
    );
    assert_eq!(manager.running_job_number(), 1);
}

#[test]
fn launcher_sends_in_the_name_of_its_scheduler() {
    let launcher = DefaultTaskLauncher::new("scheduler".to_owned());
    let request =
        launcher.launch_tasks(&ExecutorMetadata { id: "executor".to_owned() }, vec![]);
    assert_eq!(request.executor_id, "executor");
    assert_eq!(request.scheduler_id, "scheduler");
    assert!(request.tasks.is_empty());
}
