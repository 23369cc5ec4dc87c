//! The steps of submitting and aborting a job, one by one.
use std::sync::Arc;

use task_manager::abort::{
    AbortStep, AwaitingPublication, CheckingPublication, ConfirmingFailure, SavingFailed,
    UnqueueingAborted,
};
use task_manager::error::BallistaError;
use task_manager::lifecycle::{JobLifecycleControl, JobLifecyclePhase};
use task_manager::manager::TaskManager;
use task_manager::status::{FailedJob, JobStatus, StateDetails, Status};
use task_manager::submission::{
    FailingGraph, Notifying, Persisting, Planner, Planning, Reviving, SubmitRequest, SubmitStep,
    Unqueueing,
};

fn details() -> StateDetails {
    Arc::new(vec![4, 2])
}

type Submitting = SubmitStep<String>;
type Aborting = AbortStep<String, u8>;

fn request(adaptive_planning: bool) -> SubmitRequest {
    SubmitRequest {
        job_id: "j1".to_owned(),
        job_name: "job".to_owned(),
        session_id: "session".to_owned(),
        queued_at: 7,
        adaptive_planning,
    }
}

fn reported(status: Status) -> JobStatus {
    JobStatus { job_id: "j1".to_owned(), job_name: "job".to_owned(), status: Some(status) }
}

fn planning(planner: Planner, adaptive_planning: bool) -> Planning {
    Planning {
        request: request(adaptive_planning),
        planner,
        scheduler_id: "scheduler".to_owned(),
    }
}

fn in_phase(phase: JobLifecyclePhase) -> JobLifecycleControl {
    JobLifecycleControl { phase, publication_finished: true }
}

fn aborted() -> JobLifecycleControl {
    in_phase(JobLifecyclePhase::Aborted { reason: "why".to_owned() })
}

#[test]
fn session_chooses_the_planner() {
    let manager = TaskManager::new("scheduler".to_owned());
    let control = JobLifecycleControl::new();
    let step: Submitting = manager.submit_job(&control, request(true));
    assert_eq!(
        step,
        SubmitStep::Plan(planning(Planner::Adaptive, true))
    );
    let step: Submitting = manager.submit_job(&control, request(false));
    assert_eq!(
        step,
        SubmitStep::Plan(planning(Planner::Static, false))
    );
}

#[test]
fn aborted_job_is_not_planned() {
    let manager = TaskManager::new("scheduler".to_owned());
    let step: Submitting = manager.submit_job(&aborted(), request(true));
    assert_eq!(
        step,
        SubmitStep::Unqueue(Unqueueing { request: request(true), reason: "why".to_owned() })
    );
}

#[test]
fn planning_begins_the_publication() {
    let mut control = in_phase(JobLifecyclePhase::Queued);
    let at = planning(Planner::Static, false);
    let step: Submitting = at.planned(&mut control, Ok(5));
    assert_eq!(step, SubmitStep::Persist(Persisting { request: request(false), graph: 5 }));
    assert_eq!(
        control,
        JobLifecycleControl { phase: JobLifecyclePhase::Publishing, publication_finished: false }
    );
}

#[test]
fn planning_error_is_the_outcome() {
    let mut control = in_phase(JobLifecyclePhase::Queued);
    let at = planning(Planner::Static, false);
    let step: Submitting =
        at.planned(&mut control, Err(BallistaError::Other("no plan".to_owned())));
    assert_eq!(step, SubmitStep::Finished(Err(BallistaError::Other("no plan".to_owned()))));
    assert_eq!(control, in_phase(JobLifecyclePhase::Queued));
}

#[test]
fn job_is_not_submitted_twice() {
    for phase in [JobLifecyclePhase::Publishing, JobLifecyclePhase::Active] {
        let mut control = in_phase(phase);
        let at = planning(Planner::Static, false);
        let step: Submitting = at.planned(&mut control, Ok(5));
        assert_eq!(
            step,
            SubmitStep::Finished(Err(BallistaError::Internal(
                "Job j1 is already being submitted".to_owned()
            )))
        );
        assert!(control.publication_finished);
    }
}

#[test]
fn job_aborted_while_planned_is_unqueued() {
    let mut control = aborted();
    let at = planning(Planner::Static, false);
    let step: Submitting = at.planned(&mut control, Ok(5));
    assert_eq!(
        step,
        SubmitStep::Unqueue(Unqueueing { request: request(false), reason: "why".to_owned() })
    );
}

#[test]
fn unqueueing_notifies_whatever_came_of_it() {
    for outcome in [Ok(()), Err(BallistaError::Other("gone".to_owned()))] {
        let at = Unqueueing { request: request(false), reason: "why".to_owned() };
        let step: Submitting = at.unqueued(outcome);
        assert_eq!(
            step,
            SubmitStep::Notify(Notifying { request: request(false), reason: "why".to_owned() })
        );
    }
}

#[test]
fn notified_submission_is_cancelled() {
    let at = Notifying { request: request(false), reason: "why".to_owned() };
    let step: Submitting = at.notified();
    assert_eq!(step, SubmitStep::Finished(Err(BallistaError::Cancelled)));
}

#[test]
fn refused_job_is_queued_again() {
    let mut control = in_phase(JobLifecyclePhase::Publishing);
    let at = Persisting { request: request(false), graph: 5 };
    let step: Submitting = at.persisted(&mut control, Err(BallistaError::Other("no".to_owned())));
    assert_eq!(step, SubmitStep::Finished(Err(BallistaError::Other("no".to_owned()))));
    assert_eq!(control.phase, JobLifecyclePhase::Queued);
}

#[test]
fn refused_and_aborted_job_notifies() {
    let mut control = aborted();
    let at = Persisting { request: request(false), graph: 5 };
    let step: Submitting = at.persisted(&mut control, Err(BallistaError::Other("no".to_owned())));
    assert_eq!(
        step,
        SubmitStep::Notify(Notifying { request: request(false), reason: "why".to_owned() })
    );
    assert_eq!(control, aborted());
}

#[test]
fn persisted_job_follows_its_control() {
    let step: Submitting = Persisting { request: request(false), graph: 5 }
        .persisted(&mut in_phase(JobLifecyclePhase::Publishing), Ok(()));
    assert_eq!(step, SubmitStep::Revive(Reviving { request: request(false), graph: 5 }));

    let step: Submitting =
        Persisting { request: request(false), graph: 5 }.persisted(&mut aborted(), Ok(()));
    assert_eq!(
        step,
        SubmitStep::FailGraph(FailingGraph { request: request(false), graph: 5, reason: "why".to_owned() })
    );

    for phase in [JobLifecyclePhase::Queued, JobLifecyclePhase::Active] {
        let step: Submitting =
            Persisting { request: request(false), graph: 5 }.persisted(&mut in_phase(phase), Ok(()));
        assert_eq!(
            step,
            SubmitStep::Finished(Err(BallistaError::Internal(
                "Job j1 reached an invalid lifecycle phase before publication".to_owned()
            )))
        );
    }
}

#[test]
fn revived_graph_is_published() {
    let mut manager = TaskManager::new("s".to_owned());
    let mut control = in_phase(JobLifecyclePhase::Publishing);
    let (step, replaced): (Submitting, _) = Reviving { request: request(false), graph: 5 }.revived(
        &mut manager,
        &mut control,
        &reported(Status::Running(details())),
    );
    assert_eq!(step, SubmitStep::Finished(Ok(())));
    assert_eq!(replaced, None);
    assert_eq!(control.phase, JobLifecyclePhase::Active);
    assert_eq!(manager.get_active_execution_graph("j1"), Some(5));

    let mut control = in_phase(JobLifecyclePhase::Publishing);
    let (_, replaced): (Submitting, _) = Reviving { request: request(false), graph: 6 }.revived(
        &mut manager,
        &mut control,
        &reported(Status::Running(details())),
    );
    assert_eq!(replaced, Some(5));
    assert_eq!(manager.get_active_execution_graph("j1"), Some(6));
    assert_eq!(manager.running_job_number(), 1);
}

#[test]
fn revived_graph_of_an_aborted_job_is_not_published() {
    let mut manager = TaskManager::new("s".to_owned());
    let mut control = aborted();
    let (step, replaced): (Submitting, _) = Reviving { request: request(false), graph: 5 }.revived(
        &mut manager,
        &mut control,
        &reported(Status::Running(details())),
    );
    assert_eq!(
        step,
        SubmitStep::FailGraph(FailingGraph { request: request(false), graph: 5, reason: "why".to_owned() })
    );
    assert_eq!(replaced, None);
    assert_eq!(manager.get_active_execution_graph("j1"), None);
}

#[test]
fn failed_graph_ends_the_submission() {
    let step: Submitting =
        FailingGraph { request: request(false), graph: 5, reason: "why".to_owned() }.saved(Ok(()));
    assert_eq!(step, SubmitStep::Finished(Err(BallistaError::Cancelled)));
    let step: Submitting = FailingGraph { request: request(false), graph: 5, reason: "why".to_owned() }
        .saved(Err(BallistaError::Other("disk".to_owned())));
    assert_eq!(step, SubmitStep::Finished(Err(BallistaError::Other("disk".to_owned()))));
}

#[test]
fn notice_holds_the_failure() {
    let notice = TaskManager::notify_failed_subscriber(true, "j1", "job", 7, "why", 99);
    assert_eq!(
        notice,
        Some(JobStatus {
            job_id: "j1".to_owned(),
            job_name: "job".to_owned(),
            status: Some(Status::Failed(FailedJob {
                error: "why".to_owned(),
                queued_at: 7,
                started_at: 0,
                ended_at: 99,
            })),
        })
    );
    assert_eq!(TaskManager::notify_failed_subscriber(false, "j1", "job", 7, "why", 99), None);
}

#[test]
fn cancellation_waits_only_for_a_publisher_that_won() {
    let lost = || Err(BallistaError::Other("gone".to_owned()));
    let at = |was_publishing: bool| UnqueueingAborted {
        job_id: "j1".to_owned(),
        reason: "why".to_owned(),
        was_publishing,
    };
    let done: Aborting = AbortStep::Finished(Ok((vec![], 0)));
    assert_eq!(at(true).unqueued(Ok(())), done);
    assert_eq!(at(false).unqueued(Ok(())), done);
    assert_eq!(at(false).unqueued(lost()), done);
    let step: Aborting = at(true).unqueued(lost());
    assert_eq!(
        step,
        AbortStep::CheckPublication(CheckingPublication { job_id: "j1".to_owned() })
    );
}

#[test]
fn publication_is_awaited_until_the_flag_is_set() {
    let at = || CheckingPublication { job_id: "j1".to_owned() };
    let waiting: Aborting = at().read(false);
    assert_eq!(
        waiting,
        AbortStep::AwaitPublication(AwaitingPublication { job_id: "j1".to_owned() })
    );
    let step: Aborting = AwaitingPublication { job_id: "j1".to_owned() }.changed(true);
    assert_eq!(step, AbortStep::CheckPublication(at()));
    let step: Aborting = at().read(true);
    assert_eq!(step, AbortStep::ReadStatus(ConfirmingFailure { job_id: "j1".to_owned() }));
    let step: Aborting = AwaitingPublication { job_id: "j1".to_owned() }.changed(false);
    assert_eq!(
        step,
        AbortStep::Finished(Err(BallistaError::Internal(
            "Job j1 publication ended without reporting completion".to_owned()
        )))
    );
}

#[test]
fn cancellation_is_acknowledged_only_when_durable() {
    let at = || ConfirmingFailure { job_id: "j1".to_owned() };
    let failed = Status::Failed(FailedJob {
        error: "why".to_owned(),
        queued_at: 0,
        started_at: 0,
        ended_at: 0,
    });
    let status = |status| {
        Ok(Some(JobStatus { job_id: "j1".to_owned(), job_name: "job".to_owned(), status }))
    };
    let done: Aborting = AbortStep::Finished(Ok((vec![], 0)));
    assert_eq!(at().read(status(Some(failed))), done);
    for unconfirmed in [
        Ok(None),
        status(None),
        status(Some(Status::Queued(details()))),
        status(Some(Status::Running(details()))),
        status(Some(Status::Successful(details()))),
    ] {
        let step: Aborting = at().read(unconfirmed);
        assert_eq!(
            step,
            AbortStep::Finished(Err(BallistaError::Internal(
                "Job j1 cancellation did not reach a durable failed state".to_owned()
            )))
        );
    }
    let step: Aborting = at().read(Err(BallistaError::Other("down".to_owned())));
    assert_eq!(step, AbortStep::Finished(Err(BallistaError::Other("down".to_owned()))));
}

#[test]
fn saving_the_failed_graph_decides_the_abort() {
    let at = || SavingFailed {
        job_id: "j1".to_owned(),
        graph: 4,
        running_tasks: vec![1u8, 2],
        pending_tasks: 5,
    };
    let step: Aborting = at().saved(Ok(()));
    assert_eq!(step, AbortStep::Finished(Ok((vec![1, 2], 5))));
    let step: Aborting = at().saved(Err(BallistaError::Other("disk".to_owned())));
    assert_eq!(step, AbortStep::Finished(Err(BallistaError::Other("disk".to_owned()))));
}

#[test]
fn newer_control_outlives_the_failure_of_an_older_one() {
    let mut manager = TaskManager::new("s".to_owned());
    let old = manager.job_lifecycle("j1", 1);
    let mut control = JobLifecycleControl::new();
    let failing = TaskManager::fail_unscheduled_job(&mut control, old, "j1", "why".to_owned());
    assert_eq!(control.abort_reason(), Some("why".to_owned()));
    assert!(manager.release_lifecycle("j1", old));
    assert_eq!(manager.job_lifecycle("j1", 2), 2);

    let outcome: Result<(), BallistaError<String>> = Ok(());
    let (outcome, released) = failing.unqueued(&mut manager, outcome);
    assert_eq!(outcome, Ok(()));
    assert!(!released);
    assert_eq!(manager.find_lifecycle("j1"), Some(2));
}

#[test]
fn failure_that_is_not_durable_keeps_the_control() {
    let mut manager = TaskManager::new("s".to_owned());
    let lifecycle = manager.job_lifecycle("j1", 1);
    let mut control = aborted();
    let failing = TaskManager::fail_unscheduled_job(&mut control, lifecycle, "j1", "new".to_owned());
    assert_eq!(control.abort_reason(), Some("why".to_owned()));
    assert_eq!(failing.reason, "new");
    let error: Result<(), BallistaError<String>> = Err(BallistaError::Other("gone".to_owned()));
    let (outcome, released) = failing.unqueued(&mut manager, error);
    assert_eq!(outcome, Err(BallistaError::Other("gone".to_owned())));
    assert!(!released);
    assert_eq!(manager.find_lifecycle("j1"), Some(1));
}
