//! The active cache, the controls, and reading, completing and updating jobs.
use std::collections::{HashMap, HashSet};
use std::sync::Arc;

use task_manager::error::BallistaError;
use task_manager::graph::{ExecutionGraph, JobOverview};
use task_manager::jobs::{
    job_id_of, CheckingCompletion, GraphSource, ListingStep, PendingTasksStep, SavingCompletion,
    SucceedStep, TaskCountStep, UpdateStep, UpdatingJob, PENDING_TASKS_BUDGET_MILLIS,
};
use task_manager::lifecycle::{JobLifecycleControl, JobLifecyclePhase};
use task_manager::manager::{TaskManager, UpdatedStages};
use task_manager::status::{FailedJob, JobStatus, StateDetails, Status};
use task_manager::submission::{Reviving, SubmitRequest, SubmitStep};
use task_manager::tasks::{
    group_task_statuses, ExecutorMetadata, TaskStatus, STAGE_MAX_FAILURES, TASK_MAX_FAILURES,
};
use task_manager::updates::{
    ExecutorLostStep, GraphReset, TaskStatusUpdateResult, UpdateStatusesStep,
};

fn details() -> StateDetails {
    Arc::new(vec![4, 2])
}

fn graph(id: u64, job_id: &str, status: Option<Status>) -> ExecutionGraph {
    ExecutionGraph {
        id,
        job_id: job_id.to_owned(),
        job_name: format!("name of {job_id}"),
        status: JobStatus {
            job_id: job_id.to_owned(),
            job_name: format!("name of {job_id}"),
            status,
        },
        start_time: 10,
        end_time: 20,
        stage_count: 3,
        completed_stages: 2,
    }
}

fn activate(manager: &mut TaskManager, id: u64, job_id: &str, status: Option<Status>) {
    let mut control = JobLifecycleControl {
        phase: JobLifecyclePhase::Publishing,
        publication_finished: false,
    };
    let request = SubmitRequest {
        job_id: job_id.to_owned(),
        job_name: "job".to_owned(),
        session_id: "session".to_owned(),
        queued_at: 0,
        adaptive_planning: false,
    };
    let (step, _): (SubmitStep<String>, _) =
        Reviving { request, graph: id }.revived(
            manager,
            &mut control,
            &graph(id, job_id, status).status,
        );
    assert_eq!(step, SubmitStep::Finished(Ok(())));
}

fn checking() -> CheckingCompletion {
    CheckingCompletion { job_id: "a".to_owned(), graph: 1 }
}

fn saving() -> SavingCompletion {
    SavingCompletion { job_id: "a".to_owned(), graph: 1 }
}

fn updating() -> UpdatingJob {
    UpdatingJob { job_id: "a".to_owned(), graph: 1 }
}

fn executor() -> ExecutorMetadata {
    ExecutorMetadata { id: "x".to_owned() }
}

fn failed() -> Status {
    Status::Failed(FailedJob { error: "e".to_owned(), queued_at: 1, started_at: 2, ended_at: 3 })
}

#[test]
fn new_manager_knows_no_job() {
    let manager = TaskManager::new("s".to_owned());
    assert_eq!(manager.scheduler_id(), "s");
    assert_eq!(manager.running_job_number(), 0);
    assert_eq!(manager.get_active_execution_graph("a"), None);
    assert_eq!(manager.find_lifecycle("a"), None);
    assert!(manager.active_job_infos().is_empty());
}

#[test]
fn active_cache_gives_back_what_was_published() {
    let mut manager = TaskManager::new("s".to_owned());
    activate(&mut manager, 1, "a", Some(Status::Running(details())));
    activate(&mut manager, 2, "b", Some(Status::Queued(details())));
    assert_eq!(manager.running_job_number(), 2);
    assert_eq!(manager.get_active_execution_graph("a"), Some(1));
    assert_eq!(manager.get_active_execution_graph("b"), Some(2));
    assert_eq!(manager.remove_active_execution_graph("a"), Some(1));
    assert_eq!(manager.remove_active_execution_graph("a"), None);
    assert_eq!(manager.get_active_execution_graph("a"), None);
    assert_eq!(manager.get_active_execution_graph("b"), Some(2));
    assert_eq!(manager.running_job_number(), 1);
}

#[test]
fn running_cache_holds_only_running_jobs() {
    let mut manager = TaskManager::new("s".to_owned());
    activate(&mut manager, 1, "a", Some(Status::Running(details())));
    activate(&mut manager, 2, "b", Some(Status::Queued(details())));
    activate(&mut manager, 3, "c", Some(failed()));
    activate(&mut manager, 4, "d", Some(Status::Successful(details())));
    activate(&mut manager, 5, "e", None);
    activate(&mut manager, 6, "f", Some(Status::Running(details())));
    let mut running: Vec<(String, u64)> = manager
        .get_running_job_cache()
        .into_iter()
        .map(|(job_id, info)| (job_id, info.graph()))
        .collect();
    running.sort();
    assert_eq!(running, vec![("a".to_owned(), 1), ("f".to_owned(), 6)]);
    let mut all: Vec<String> =
        manager.active_job_infos().into_iter().map(|(job_id, _)| job_id).collect();
    all.sort();
    assert_eq!(all, vec!["a", "b", "c", "d", "e", "f"]);
    assert_eq!(all.len(), manager.running_job_number());
    let mut graphs = manager.active_graphs();
    graphs.sort();
    assert_eq!(graphs, vec![1, 2, 3, 4, 5, 6]);
}

#[test]
fn gates_are_kept_until_released() {
    let mut manager = TaskManager::new("s".to_owned());
    assert_eq!(manager.job_lifecycle("a", 1), 1);
    assert_eq!(manager.job_lifecycle("a", 2), 1);
    assert_eq!(manager.job_lifecycle("b", 3), 3);
    assert!(!manager.release_lifecycle("a", 2));
    assert_eq!(manager.find_lifecycle("a"), Some(1));
    assert!(manager.release_lifecycle("a", 1));
    assert_eq!(manager.find_lifecycle("a"), None);
    assert!(!manager.release_lifecycle("a", 1));
    assert_eq!(manager.find_lifecycle("b"), Some(3));
}

#[test]
fn job_that_is_not_accepted_gets_no_control() {
    let mut manager = TaskManager::new("s".to_owned());
    let refused: Result<(), BallistaError<String>> = Err(BallistaError::Other("full".to_owned()));
    assert_eq!(
        manager.queue_job("a", 1, refused),
        Err(BallistaError::Other("full".to_owned()))
    );
    assert_eq!(manager.find_lifecycle("a"), None);
    let accepted: Result<(), BallistaError<String>> = Ok(());
    assert_eq!(manager.queue_job("a", 1, accepted), Ok(1));
    assert_eq!(manager.find_lifecycle("a"), Some(1));
}

#[test]
fn cleaning_up_releases_the_control() {
    let mut manager = TaskManager::new("s".to_owned());
    manager.job_lifecycle("a", 1);
    let refused: Result<(), BallistaError<String>> = Err(BallistaError::Other("down".to_owned()));
    assert_eq!(manager.job_cleaned_up("a", &refused), None);
    assert_eq!(manager.find_lifecycle("a"), Some(1));
    let removed: Result<(), BallistaError<String>> = Ok(());
    assert_eq!(manager.job_cleaned_up("a", &removed), Some(1));
    assert_eq!(manager.find_lifecycle("a"), None);
    assert_eq!(manager.job_cleaned_up("a", &removed), None);
}

#[test]
fn interval_of_zero_means_no_clean_up() {
    assert_eq!(TaskManager::clean_up_job_delayed(0), None);
    assert_eq!(TaskManager::clean_up_job_delayed(30), Some(30));
}

#[test]
fn active_graph_comes_before_the_stored_one() {
    let mut manager = TaskManager::new("s".to_owned());
    activate(&mut manager, 1, "a", None);
    assert_eq!(manager.get_job_status("a"), GraphSource::Active(1));
    assert_eq!(manager.get_job_status("b"), GraphSource::Stored);
    assert_eq!(manager.get_job_execution_graph("a"), GraphSource::Active(1));
    assert_eq!(manager.get_job_execution_graph("b"), GraphSource::Stored);
    assert_eq!(manager.get_available_task_count("a"), TaskCountStep::CountTasks(1));
    assert_eq!(manager.get_available_task_count("b"), TaskCountStep::Finished(0));
}

#[test]
fn overview_is_made_from_the_graph() {
    let graph = graph(1, "a", Some(Status::Running(details())));
    assert_eq!(
        JobOverview::from(&graph),
        JobOverview {
            job_id: "a".to_owned(),
            job_name: "name of a".to_owned(),
            status: graph.status.clone(),
            start_time: 10,
            end_time: 20,
            num_stages: 3,
            completed_stages: 2,
        }
    );
}

#[test]
fn details_of_a_status_are_kept() {
    let shown = |status: Status| JobOverview::from(&graph(1, "a", Some(status))).status.status;
    let other: StateDetails = Arc::new(vec![9, 9]);
    assert_eq!(shown(Status::Queued(details())), Some(Status::Queued(details())));
    assert_eq!(shown(Status::Running(other.clone())), Some(Status::Running(other.clone())));
    assert_eq!(shown(Status::Successful(other.clone())), Some(Status::Successful(other.clone())));
    assert_ne!(shown(Status::Running(details())), Some(Status::Running(other.clone())));
    assert_eq!(shown(failed()), Some(failed()));

    let mut manager = TaskManager::new("s".to_owned());
    activate(&mut manager, 1, "a", Some(Status::Running(other.clone())));
    let running = manager.get_running_job_cache();
    assert_eq!(running[0].1.status(), &Some(Status::Running(other)));
}

#[test]
fn listing_reads_every_graph() {
    let mut manager = TaskManager::new("s".to_owned());
    activate(&mut manager, 1, "a", None);
    let step: ListingStep<String> =
        manager.get_jobs(vec!["a".to_owned(), "b".to_owned()]);
    let listing = match step {
        ListingStep::ReadStored(listing) => listing,
        step => panic!("unexpected step {step:?}"),
    };
    assert_eq!(listing.job_id, "b");
    let step: ListingStep<String> =
        listing.graph_read(&manager, Ok(Some(graph(9, "b", Some(Status::Successful(details()))))));
    let listing = match step {
        ListingStep::ReadActive(found, listing) => {
            assert_eq!(found, 1);
            listing
        }
        step => panic!("unexpected step {step:?}"),
    };
    assert_eq!(listing.job_id, "a");
    let step: ListingStep<String> = listing.graph_read(&manager, Ok(Some(graph(1, "a", None))));
    match step {
        ListingStep::Finished(Ok(overviews)) => {
            let jobs: Vec<&str> =
                overviews.iter().map(|overview| overview.job_id.as_str()).collect();
            assert_eq!(jobs, vec!["b", "a"]);
        }
        step => panic!("unexpected step {step:?}"),
    }
}

#[test]
fn listing_nothing_ends_at_once() {
    let manager = TaskManager::new("s".to_owned());
    let step: ListingStep<String> = manager.get_jobs(vec![]);
    assert_eq!(step, ListingStep::Finished(Ok(vec![])));
}

#[test]
fn listing_ends_with_a_job_without_graph() {
    let manager = TaskManager::new("s".to_owned());
    let listing = || match manager.get_jobs::<String>(vec!["a".to_owned(), "b".to_owned()]) {
        ListingStep::ReadStored(listing) => listing,
        step => panic!("unexpected step {step:?}"),
    };
    let step: ListingStep<String> = listing().graph_read(&manager, Ok(None));
    assert_eq!(
        step,
        ListingStep::Finished(Err(BallistaError::Internal(
            "Error getting job overview, no execution graph found for job b".to_owned()
        )))
    );
    let step: ListingStep<String> =
        listing().graph_read(&manager, Err(BallistaError::Other("down".to_owned())));
    assert_eq!(step, ListingStep::Finished(Err(BallistaError::Other("down".to_owned()))));
}

#[test]
fn completed_job_leaves_the_cache() {
    let mut manager = TaskManager::new("s".to_owned());
    activate(&mut manager, 1, "a", None);
    let step: SucceedStep<String> = manager.succeed_job("a");
    assert_eq!(step, SucceedStep::CheckGraph(checking()));
    assert_eq!(manager.running_job_number(), 0);
    let step: SucceedStep<String> = manager.succeed_job("a");
    assert_eq!(step, SucceedStep::Finished(Ok(())));
    let step: SucceedStep<String> = checking().checked(false);
    assert_eq!(step, SucceedStep::Finished(Ok(())));
    let step: SucceedStep<String> = checking().checked(true);
    assert_eq!(step, SucceedStep::SaveGraph(saving()));
    let step: SucceedStep<String> =
        saving().saved(Err(BallistaError::Other("disk".to_owned())));
    assert_eq!(step, SucceedStep::Finished(Err(BallistaError::Other("disk".to_owned()))));
}

#[test]
fn update_counts_new_tasks() {
    let mut manager = TaskManager::new("s".to_owned());
    activate(&mut manager, 1, "a", None);
    assert_eq!(manager.update_job("a"), UpdateStep::ReviveGraph(updating()));
    assert_eq!(manager.update_job("b"), UpdateStep::Finished(0));
    let saved: Result<(), BallistaError<String>> = Ok(());
    assert_eq!(updating().saved(2, saved, 7), Ok(5));
    let lost: Result<(), BallistaError<String>> = Err(BallistaError::Other("disk".to_owned()));
    assert_eq!(
        updating().saved(2, lost, 0),
        Err(BallistaError::Other("disk".to_owned()))
    );
}

/// Counts the pending tasks, with the count of each graph from `count`.
fn count_pending(manager: &TaskManager, count: impl Fn(u64) -> Option<usize>) -> usize {
    let mut step = manager.total_pending_tasks();
    loop {
        step = match step {
            PendingTasksStep::CountTasks(at) => {
                assert_eq!(at.budget_millis, 100);
                assert_eq!(manager.get_active_execution_graph(&at.job_id), Some(at.graph));
                let counted = count(at.graph);
                at.counted(counted)
            }
            PendingTasksStep::Finished(total) => return total,
        }
    }
}

#[test]
fn pending_tasks_of_all_active_jobs_are_counted() {
    let mut manager = TaskManager::new("s".to_owned());
    assert_eq!(count_pending(&manager, |_| None), 0);
    activate(&mut manager, 1, "a", None);
    activate(&mut manager, 2, "b", None);
    activate(&mut manager, 3, "c", None);
    assert_eq!(count_pending(&manager, |graph| Some(graph as usize)), 6);
    assert_eq!(count_pending(&manager, |graph| if graph == 2 { None } else { Some(3) }), 6);
    assert_eq!(count_pending(&manager, |_| None), 0);
    assert_eq!(PENDING_TASKS_BUDGET_MILLIS, 100);
}

#[test]
fn job_id_is_made_of_the_samples() {
    assert_eq!(job_id_of(&vec![b'Q', b'7', b'a']), "Q7a");
    assert_eq!(job_id_of(&vec![]), "");
}

#[test]
fn job_ids_are_seven_letters_and_digits() {
    let ids: HashSet<String> = (0..200).map(|_| TaskManager::generate_job_id()).collect();
    assert!(ids.len() > 190);
    for id in &ids {
        assert_eq!(id.len(), 7);
        assert!(id.chars().all(|c| c.is_ascii_alphanumeric()));
    }
}

fn status(job_id: &str, update: u8) -> TaskStatus<u8> {
    TaskStatus { job_id: job_id.to_owned(), update }
}

#[test]
fn grouping_keeps_every_update_in_its_job() {
    let groups = group_task_statuses(vec![
        status("a", 1),
        status("b", 2),
        status("a", 3),
        status("c", 4),
        status("a", 1),
    ]);
    let mut found: Vec<(String, Vec<u8>)> = groups
        .into_iter()
        .map(|group| {
            assert!(group.statuses.iter().all(|status| status.job_id == group.job_id));
            (group.job_id, group.statuses.into_iter().map(|status| status.update).collect())
        })
        .collect();
    found.sort();
    assert_eq!(
        found,
        vec![
            ("a".to_owned(), vec![1, 3, 1]),
            ("b".to_owned(), vec![2]),
            ("c".to_owned(), vec![4]),
        ]
    );
    assert!(group_task_statuses::<u8>(vec![]).is_empty());
}

type Updating = UpdateStatusesStep<String, u8, u64, char>;

#[test]
fn updates_are_applied_to_active_jobs_only() {
    let mut manager = TaskManager::new("s".to_owned());
    activate(&mut manager, 1, "a", None);
    activate(&mut manager, 2, "b", None);
    let mut step: Updating = manager.update_task_statuses(&executor(), vec![
        status("gone", 9),
        status("a", 1),
        status("b", 2),
        status("a", 3),
        status("lost", 9),
    ]);
    let mut seen: Vec<(u64, Vec<u8>)> = Vec::new();
    let mut passed_over: Vec<String> = Vec::new();
    let outcome = loop {
        step = match step {
            UpdateStatusesStep::Apply(at) => {
                assert_eq!(at.executor.id, "x");
                assert_eq!(at.task_max_failures, TASK_MAX_FAILURES);
                assert_eq!(at.stage_max_failures, STAGE_MAX_FAILURES);
                let updates = at.updates.statuses.iter().map(|status| status.update).collect();
                seen.push((at.graph, updates));
                let answer = TaskStatusUpdateResult {
                    events: vec![at.graph, 100 + at.graph],
                    metrics: vec![if at.graph == 1 { 'a' } else { 'b' }],
                };
                at.rest.applied(&manager, Ok(answer))
            }
            UpdateStatusesStep::PassOver(at) => {
                passed_over.push(at.updates.job_id);
                at.rest.passed_over(&manager)
            }
            UpdateStatusesStep::Finished(outcome) => break outcome,
        }
    };
    let events: Vec<u64> = seen.iter().flat_map(|(graph, _)| [*graph, 100 + *graph]).collect();
    let metrics: Vec<char> =
        seen.iter().map(|(graph, _)| if *graph == 1 { 'a' } else { 'b' }).collect();
    assert_eq!(outcome, Ok(TaskStatusUpdateResult { events, metrics }));
    seen.sort();
    assert_eq!(seen, vec![(1, vec![1, 3]), (2, vec![2])]);
    passed_over.sort();
    assert_eq!(passed_over, vec!["gone", "lost"]);
}

#[test]
fn update_error_ends_the_round() {
    let mut manager = TaskManager::new("s".to_owned());
    activate(&mut manager, 1, "a", None);
    activate(&mut manager, 2, "b", None);
    let step: Updating = manager.update_task_statuses(&executor(), vec![status("a", 1), status("b", 2)]);
    let at = match step {
        UpdateStatusesStep::Apply(at) => at,
        step => panic!("unexpected step {step:?}"),
    };
    let step: Updating =
        at.rest.applied(&manager, Err(BallistaError::Other("bad".to_owned())));
    assert_eq!(
        step,
        UpdateStatusesStep::Finished(Err(BallistaError::Other("bad".to_owned())))
    );
    assert_eq!(TASK_MAX_FAILURES, 4);
    assert_eq!(STAGE_MAX_FAILURES, 4);
}

#[test]
fn job_that_ends_during_a_round_is_passed_over() {
    let mut manager = TaskManager::new("s".to_owned());
    activate(&mut manager, 1, "a", None);
    activate(&mut manager, 2, "b", None);
    let step: Updating = manager.update_task_statuses(&executor(), vec![status("a", 1), status("b", 2)]);
    let at = match step {
        UpdateStatusesStep::Apply(at) => at,
        step => panic!("unexpected step {step:?}"),
    };
    let other = if at.graph == 1 { "b" } else { "a" };
    manager.remove_active_execution_graph(other);
    let step: Updating = at.rest.applied(&manager, Ok(TaskStatusUpdateResult::default()));
    match step {
        UpdateStatusesStep::PassOver(at) => assert_eq!(at.updates.job_id, other),
        step => panic!("unexpected step {step:?}"),
    }
}

#[test]
fn round_without_updates_ends_at_once() {
    let manager = TaskManager::new("s".to_owned());
    let step: Updating = manager.update_task_statuses(&executor(), vec![]);
    assert_eq!(step, UpdateStatusesStep::Finished(Ok(TaskStatusUpdateResult::default())));
    let nothing: TaskStatusUpdateResult<u64, char> = TaskStatusUpdateResult::default();
    assert!(nothing.events.is_empty() && nothing.metrics.is_empty());
}

#[test]
fn lost_executor_cancels_tasks_of_reset_stages() {
    let mut manager = TaskManager::new("s".to_owned());
    activate(&mut manager, 1, "a", None);
    activate(&mut manager, 2, "b", None);
    activate(&mut manager, 3, "c", None);
    let mut step: ExecutorLostStep<String, u64> = manager.executor_lost("x");
    let mut order: Vec<u64> = Vec::new();
    let outcome = loop {
        step = match step {
            ExecutorLostStep::ResetGraph(at) => {
                let graph = at.graph;
                assert_eq!(at.executor_id, "x");
                order.push(graph);
                let stages = if graph == 2 { vec![] } else { vec![4usize] };
                at.reset(Ok(GraphReset { stages, running_tasks: vec![graph, 10 * graph] }))
            }
            ExecutorLostStep::Finished(outcome) => break outcome,
        }
    };
    let expected: Vec<u64> =
        order.iter().filter(|graph| **graph != 2).flat_map(|graph| [*graph, 10 * *graph]).collect();
    assert_eq!(outcome, Ok(expected));
    order.sort();
    assert_eq!(order, vec![1, 2, 3]);
}

#[test]
fn loss_without_active_job_cancels_nothing() {
    let manager = TaskManager::new("s".to_owned());
    let step: ExecutorLostStep<String, u64> = manager.executor_lost("x");
    assert_eq!(step, ExecutorLostStep::Finished(Ok(vec![])));
}

#[test]
fn reset_error_ends_the_loss() {
    let mut manager = TaskManager::new("s".to_owned());
    activate(&mut manager, 1, "a", None);
    activate(&mut manager, 2, "b", None);
    let step: ExecutorLostStep<String, u64> = manager.executor_lost("x");
    let at = match step {
        ExecutorLostStep::ResetGraph(at) => at,
        step => panic!("unexpected step {step:?}"),
    };
    assert_eq!(
        at.reset(Err(BallistaError::Other("bad".to_owned()))),
        ExecutorLostStep::Finished(Err(BallistaError::Other("bad".to_owned())))
    );
}

#[test]
fn copied_stage_changes_are_the_same() {
    let stages = UpdatedStages {
        resolved_stages: HashSet::from([1]),
        successful_stages: HashSet::from([2, 3]),
        failed_stages: HashMap::from([(4, "why".to_owned())]),
        rollback_running_stages: HashMap::from([(5, HashSet::from(["lost".to_owned()]))]),
        resubmit_successful_stages: HashSet::from([6]),
    };
    let copy = stages.clone();
    assert_eq!(copy.resolved_stages, HashSet::from([1]));
    assert_eq!(copy.successful_stages, HashSet::from([2, 3]));
    assert_eq!(copy.failed_stages[&4], "why");
    assert!(copy.rollback_running_stages[&5].contains("lost"));
    assert_eq!(copy.resubmit_successful_stages, HashSet::from([6]));
}

#[test]
fn control_flag_tells_the_end_of_publication() {
    let mut control = JobLifecycleControl::new();
    assert_eq!(control.phase, JobLifecyclePhase::Queued);
    assert!(!control.publication_finished);
    assert!(control.begin_publication());
    assert!(control.is_publishing());
    assert!(!control.begin_publication());
    control.withdraw_publication();
    assert_eq!(control.phase, JobLifecyclePhase::Queued);
    control.finish_publication();
    assert!(control.publication_finished);
    assert!(control.begin_publication());
    assert!(!control.publication_finished);
    assert!(control.publish());
    assert!(!control.publish());
    assert_eq!(control.phase, JobLifecyclePhase::Active);
    control.tombstone(&"first".to_owned());
    control.tombstone(&"second".to_owned());
    control.withdraw_publication();
    control.finish_publication();
    assert_eq!(control.abort_reason(), Some("first".to_owned()));
    assert!(control.publication_finished);
}
