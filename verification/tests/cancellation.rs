//! Cancellation against submission, with the persistent job state in memory.
use std::collections::HashMap;
use std::sync::Arc;

use task_manager::abort::AbortStep;
use task_manager::error::BallistaError;
use task_manager::graph::{ExecutionGraph, GraphId};
use task_manager::jobs::GraphSource;
use task_manager::lifecycle::{JobLifecycleControl, JobLifecyclePhase, LifecycleId};
use task_manager::manager::TaskManager;
use task_manager::status::{FailedJob, JobStatus, StateDetails, Status};
use task_manager::submission::{Persisting, Planner, SubmitRequest, SubmitStep};

fn details() -> StateDetails {
    Arc::new(vec![4, 2])
}

type Outcome = Result<(), BallistaError<String>>;
type Submitting = SubmitStep<String>;
type Aborting = AbortStep<String, String>;

/// A persistent job state that lives in memory.
struct JobState {
    queued: HashMap<String, (String, u64)>,
    running: HashMap<String, JobStatus>,
    completed: HashMap<String, JobStatus>,
}

impl JobState {
    fn new() -> Self {
        JobState { queued: HashMap::new(), running: HashMap::new(), completed: HashMap::new() }
    }

    fn accept_job(&mut self, job_id: &str, job_name: &str, queued_at: u64) -> Outcome {
        self.queued.insert(job_id.to_owned(), (job_name.to_owned(), queued_at));
        Ok(())
    }

    fn submit_job(&mut self, job_id: &str, graph: &ExecutionGraph) -> Outcome {
        match self.queued.remove(job_id) {
            Some(_) => {
                self.running.insert(job_id.to_owned(), graph.status.clone());
                Ok(())
            }
            None => Err(BallistaError::Other(format!("{job_id} is not queued"))),
        }
    }

    fn fail_unscheduled_job(&mut self, job_id: &str, reason: &str) -> Outcome {
        match self.queued.remove(job_id) {
            Some((job_name, queued_at)) => {
                self.completed.insert(
                    job_id.to_owned(),
                    JobStatus {
                        job_id: job_id.to_owned(),
                        job_name,
                        status: Some(Status::Failed(FailedJob {
                            error: reason.to_owned(),
                            queued_at,
                            started_at: 0,
                            ended_at: 9,
                        })),
                    },
                );
                Ok(())
            }
            None => Err(BallistaError::Other(format!("{job_id} is not queued"))),
        }
    }

    fn save_job(&mut self, job_id: &str, graph: &ExecutionGraph) -> Outcome {
        self.running.remove(job_id);
        self.completed.insert(job_id.to_owned(), graph.status.clone());
        Ok(())
    }

    fn get_job_status(&self, job_id: &str) -> Option<JobStatus> {
        self.running.get(job_id).or(self.completed.get(job_id)).cloned()
    }
}

/// A manager with everything that it decides about.
struct Scheduler {
    manager: TaskManager,
    state: JobState,
    controls: HashMap<LifecycleId, JobLifecycleControl>,
    graphs: HashMap<GraphId, ExecutionGraph>,
    next_id: u64,
    notices: Vec<JobStatus>,
}

impl Scheduler {
    fn new() -> Self {
        Scheduler {
            manager: TaskManager::new("test-scheduler".to_owned()),
            state: JobState::new(),
            controls: HashMap::new(),
            graphs: HashMap::new(),
            next_id: 1,
            notices: Vec::new(),
        }
    }

    fn fresh(&mut self) -> u64 {
        self.next_id += 1;
        self.next_id
    }

    fn control(&mut self, job_id: &str) -> LifecycleId {
        let fresh = self.fresh();
        let lifecycle = self.manager.job_lifecycle(job_id, fresh);
        self.controls.entry(lifecycle).or_insert_with(JobLifecycleControl::new);
        lifecycle
    }

    fn queue_job(&mut self, job_id: &str, job_name: &str, queued_at: u64) -> Outcome {
        let accepted = self.state.accept_job(job_id, job_name, queued_at);
        let fresh = self.fresh();
        let lifecycle = self.manager.queue_job(job_id, fresh, accepted)?;
        self.controls.entry(lifecycle).or_insert_with(JobLifecycleControl::new);
        Ok(())
    }

    fn plan(&mut self, request: &SubmitRequest) -> GraphId {
        let id = self.fresh();
        self.graphs.insert(
            id,
            ExecutionGraph {
                id,
                job_id: request.job_id.clone(),
                job_name: request.job_name.clone(),
                status: JobStatus {
                    job_id: request.job_id.clone(),
                    job_name: request.job_name.clone(),
                    status: Some(Status::Running(details())),
                },
                start_time: 1,
                end_time: 0,
                stage_count: 1,
                completed_stages: 0,
            },
        );
        id
    }

    fn fail_graph(&mut self, graph: GraphId, reason: &str) {
        self.graphs.get_mut(&graph).unwrap().status.status = Some(Status::Failed(FailedJob {
            error: reason.to_owned(),
            queued_at: 1,
            started_at: 1,
            ended_at: 9,
        }));
    }

    /// Submits up to the point where the persistent job state is asked.
    fn submit_to_state(
        &mut self,
        job_id: &str,
        subscribed: bool,
    ) -> Result<(Persisting, GraphId), Outcome> {
        let lifecycle = self.control(job_id);
        let request = SubmitRequest {
            job_id: job_id.to_owned(),
            job_name: "test-job".to_owned(),
            session_id: "test-session".to_owned(),
            queued_at: 1,
            adaptive_planning: false,
        };
        let step: Submitting = self.manager.submit_job(&self.controls[&lifecycle], request);
        match step {
            SubmitStep::Plan(planning) => {
                assert_eq!(planning.planner, Planner::Static);
                assert_eq!(planning.scheduler_id, "test-scheduler");
                assert_eq!(planning.request.session_id, "test-session");
                let graph = self.plan(&planning.request);
                let control = self.controls.get_mut(&lifecycle).unwrap();
                match planning.planned(control, Ok(graph)) {
                    SubmitStep::Persist(persisting) => {
                        assert_eq!(persisting.graph, graph);
                        Ok((persisting, graph))
                    }
                    step => Err(self.finish_submit(lifecycle, subscribed, step)),
                }
            }
            step => Err(self.finish_submit(lifecycle, subscribed, step)),
        }
    }

    /// Hands over the answer of the persistent job state.
    fn submit_from_state(
        &mut self,
        persisting: Persisting,
        subscribed: bool,
        answer: Outcome,
    ) -> Outcome {
        let lifecycle = self.control(&persisting.request.job_id.clone());
        let control = self.controls.get_mut(&lifecycle).unwrap();
        let step = persisting.persisted(control, answer);
        let outcome = self.finish_submit(lifecycle, subscribed, step);
        self.controls.get_mut(&lifecycle).unwrap().finish_publication();
        outcome
    }

    fn finish_submit(
        &mut self,
        lifecycle: LifecycleId,
        subscribed: bool,
        first: Submitting,
    ) -> Outcome {
        let mut step = first;
        loop {
            step = match step {
                SubmitStep::Unqueue(at) => {
                    let outcome =
                        self.state.fail_unscheduled_job(&at.request.job_id, &at.reason);
                    at.unqueued(outcome)
                }
                SubmitStep::Notify(at) => {
                    self.notices.extend(TaskManager::notify_failed_subscriber(
                        subscribed,
                        &at.request.job_id,
                        &at.request.job_name,
                        at.request.queued_at,
                        &at.reason,
                        9,
                    ));
                    at.notified()
                }
                SubmitStep::Revive(at) => {
                    let control = self.controls.get_mut(&lifecycle).unwrap();
                    let status = &self.graphs[&at.graph].status;
                    at.revived(&mut self.manager, control, status).0
                }
                SubmitStep::FailGraph(at) => {
                    self.fail_graph(at.graph, &at.reason);
                    let outcome =
                        self.state.save_job(&at.request.job_id, &self.graphs[&at.graph]);
                    at.saved(outcome)
                }
                SubmitStep::Finished(outcome) => return outcome,
                step => panic!("unexpected step {step:?}"),
            }
        }
    }

    fn submit(&mut self, job_id: &str, subscribed: bool) -> Outcome {
        match self.submit_to_state(job_id, subscribed) {
            Ok((persisting, graph)) => {
                let answer = self.state.submit_job(job_id, &self.graphs[&graph]);
                self.submit_from_state(persisting, subscribed, answer)
            }
            Err(outcome) => outcome,
        }
    }

    /// Cancels up to the point where it ends or waits for a publisher.
    fn cancel(&mut self, job_id: &str) -> Aborting {
        let lifecycle = self.control(job_id);
        let control = self.controls.get_mut(&lifecycle).unwrap();
        let step = self.manager.cancel_job(control, job_id);
        self.go_on_cancelling(lifecycle, step)
    }

    fn go_on_cancelling(&mut self, lifecycle: LifecycleId, first: Aborting) -> Aborting {
        let mut step = first;
        loop {
            step = match step {
                AbortStep::FailGraph(at) => {
                    self.fail_graph(at.graph, &at.reason);
                    at.failed(vec!["task".to_owned()], 3)
                }
                AbortStep::SaveGraph(at) => {
                    let outcome = self.state.save_job(&at.job_id, &self.graphs[&at.graph]);
                    at.saved(outcome)
                }
                AbortStep::Unqueue(at) => {
                    let outcome = self.state.fail_unscheduled_job(&at.job_id, &at.reason);
                    at.unqueued(outcome)
                }
                AbortStep::CheckPublication(at) => {
                    at.read(self.controls[&lifecycle].publication_finished)
                }
                AbortStep::ReadStatus(at) => {
                    let status = self.state.get_job_status(&at.job_id);
                    at.read(Ok(status))
                }
                step => return step,
            }
        }
    }

    fn assert_failed_without_active_graph(&self, job_id: &str) {
        assert!(self.manager.get_active_execution_graph(job_id).is_none());
        assert_eq!(self.manager.running_job_number(), 0);
        assert_eq!(self.manager.get_job_status(job_id), GraphSource::Stored);
        let status = self.state.get_job_status(job_id).expect("cancelled job status to exist");
        assert!(
            matches!(status.status, Some(Status::Failed(ref failed)) if failed.error == "Cancelled"),
            "cancelled job should be durably failed, got {status:?}"
        );
    }
}

fn nothing_cancelled(step: &Aborting) -> bool {
    matches!(step, AbortStep::Finished(Ok((tasks, 0))) if tasks.is_empty())
}

#[test]
fn cancellation_before_submit_is_a_tombstone() {
    let mut scheduler = Scheduler::new();
    let job_id = "cancel-before-submit";
    scheduler.queue_job(job_id, "test-job", 1).expect("to queue test job");

    let cancelled = scheduler.cancel(job_id);
    assert!(nothing_cancelled(&cancelled), "to cancel queued job");
    let submit_result = scheduler.submit(job_id, false);

    assert!(matches!(submit_result, Err(BallistaError::Cancelled)));
    scheduler.assert_failed_without_active_graph(job_id);
    assert!(scheduler.notices.is_empty());
}

#[test]
fn queued_cancellation_notifies_job_status_subscriber() {
    let mut scheduler = Scheduler::new();
    let job_id = "cancelled-subscriber";
    scheduler.queue_job(job_id, "test-job", 1).expect("to queue test job");
    let cancelled = scheduler.cancel(job_id);
    assert!(nothing_cancelled(&cancelled), "to cancel queued job");

    let submit_result = scheduler.submit(job_id, true);

    assert!(matches!(submit_result, Err(BallistaError::Cancelled)));
    let status =
        scheduler.notices.pop().expect("cancelled subscriber to receive a terminal status");
    assert!(
        matches!(status.status, Some(Status::Failed(ref failed)) if failed.error == "Cancelled"),
        "cancelled subscriber should receive Failed(Cancelled), got {status:?}"
    );
}

#[test]
fn planning_failure_releases_lifecycle_control() {
    let mut scheduler = Scheduler::new();
    let job_id = "planning-failure-cleanup";
    scheduler.queue_job(job_id, "test-job", 1).expect("to queue test job");
    assert!(scheduler.manager.find_lifecycle(job_id).is_some());

    let lifecycle = scheduler.control(job_id);
    let control = scheduler.controls.get_mut(&lifecycle).unwrap();
    let failing = TaskManager::fail_unscheduled_job(
        control,
        lifecycle,
        job_id,
        "planning failed".to_owned(),
    );
    let outcome = scheduler.state.fail_unscheduled_job(&failing.job_id, &failing.reason);
    let (outcome, released) = failing.unqueued(&mut scheduler.manager, outcome);
    outcome.expect("to persist planning failure");
    assert!(released);

    assert!(
        scheduler.manager.find_lifecycle(job_id).is_none(),
        "completed planning failure must not retain a lifecycle control"
    );
}

#[test]
fn cancellation_while_persistent_submit_is_blocked_prevents_publication() {
    let mut scheduler = Scheduler::new();
    let job_id = "cancel-before-state-submit";
    scheduler.queue_job(job_id, "test-job", 1).expect("to queue test job");

    let (persisting, graph) =
        scheduler.submit_to_state(job_id, true).expect("the submission to reach the job state");
    let cancelled = scheduler.cancel(job_id);
    assert!(nothing_cancelled(&cancelled), "to cancel job blocked before persistent submit");
    let answer = scheduler.state.submit_job(job_id, &scheduler.graphs[&graph]);
    assert!(answer.is_err());
    let submit_result = scheduler.submit_from_state(persisting, true, answer);

    assert!(matches!(submit_result, Err(BallistaError::Cancelled)));
    let status = scheduler
        .notices
        .pop()
        .expect("cancelled publisher subscriber to receive a terminal status");
    assert!(
        matches!(status.status, Some(Status::Failed(ref failed)) if failed.error == "Cancelled"),
        "cancelled publisher subscriber should receive Failed(Cancelled), got {status:?}"
    );
    scheduler.assert_failed_without_active_graph(job_id);
}

#[test]
fn cancellation_after_persistent_submit_prevents_cache_publication() {
    let mut scheduler = Scheduler::new();
    let job_id = "cancel-after-state-submit";
    scheduler.queue_job(job_id, "test-job", 1).expect("to queue test job");

    let (persisting, graph) =
        scheduler.submit_to_state(job_id, false).expect("the submission to reach the job state");
    let answer = scheduler.state.submit_job(job_id, &scheduler.graphs[&graph]);
    assert!(answer.is_ok());

    let cancelling = scheduler.cancel(job_id);
    let lifecycle = scheduler.control(job_id);
    assert!(matches!(
        scheduler.controls[&lifecycle].phase,
        JobLifecyclePhase::Aborted { .. }
    ));
    let waiting = match cancelling {
        AbortStep::AwaitPublication(waiting) => waiting,
        step => panic!(
            "cancellation must wait until the publisher durably fails the job, got {step:?}"
        ),
    };

    let submit_result = scheduler.submit_from_state(persisting, false, answer);
    let step = waiting.changed(true);
    let cancelled = scheduler.go_on_cancelling(lifecycle, step);
    assert!(nothing_cancelled(&cancelled), "to cancel job after persistent submit");
    assert!(matches!(submit_result, Err(BallistaError::Cancelled)));
    scheduler.assert_failed_without_active_graph(job_id);
}

#[test]
fn cancellation_after_cache_publication_removes_graph() {
    let mut scheduler = Scheduler::new();
    let job_id = "cancel-after-cache-publish";
    scheduler.queue_job(job_id, "test-job", 1).expect("to queue test job");
    scheduler.submit(job_id, false).expect("to publish active graph");
    assert!(scheduler.manager.get_active_execution_graph(job_id).is_some());

    match scheduler.cancel(job_id) {
        AbortStep::Finished(Ok((tasks, pending))) => {
            assert_eq!(tasks, vec!["task".to_owned()]);
            assert_eq!(pending, 3);
        }
        step => panic!("to cancel active job, got {step:?}"),
    }

    scheduler.assert_failed_without_active_graph(job_id);
}

#[test]
fn late_queueing_respects_an_early_tombstone() {
    let mut scheduler = Scheduler::new();
    let job_id = "cancelled-before-queued";
    let _ = scheduler.cancel(job_id);
    let control = scheduler.manager.find_lifecycle(job_id);
    assert!(control.is_some());

    scheduler.queue_job(job_id, "test-job", 1).expect("to queue test job");
    assert_eq!(scheduler.manager.find_lifecycle(job_id), control);

    let submit_result = scheduler.submit(job_id, true);
    assert!(matches!(submit_result, Err(BallistaError::Cancelled)));
    assert_eq!(scheduler.notices.len(), 1);
    scheduler.assert_failed_without_active_graph(job_id);
}

#[test]
fn second_cancellation_keeps_the_first_reason() {
    let mut scheduler = Scheduler::new();
    let job_id = "aborted-twice";
    scheduler.queue_job(job_id, "test-job", 1).expect("to queue test job");
    scheduler.submit(job_id, false).expect("to publish active graph");

    let lifecycle = scheduler.control(job_id);
    let control = scheduler.controls.get_mut(&lifecycle).unwrap();
    let first: Aborting = scheduler.manager.abort_job(control, job_id, "first".to_owned());
    assert!(matches!(first, AbortStep::FailGraph(ref at) if at.reason == "first"));
    let control = scheduler.controls.get_mut(&lifecycle).unwrap();
    let second: Aborting = scheduler.manager.abort_job(control, job_id, "second".to_owned());
    assert!(matches!(second, AbortStep::Unqueue(ref at) if !at.was_publishing));
    assert_eq!(scheduler.controls[&lifecycle].abort_reason(), Some("first".to_owned()));
}

#[test]
fn job_that_was_refused_can_be_submitted_again() {
    let mut scheduler = Scheduler::new();
    let job_id = "refused-once";
    scheduler.queue_job(job_id, "test-job", 1).expect("to queue test job");

    let (persisting, _) =
        scheduler.submit_to_state(job_id, true).expect("the submission to reach the job state");
    let refusal = Err(BallistaError::Other("busy".to_owned()));
    let refused = scheduler.submit_from_state(persisting, true, refusal);
    assert_eq!(refused, Err(BallistaError::Other("busy".to_owned())));
    assert!(scheduler.notices.is_empty());

    scheduler.submit(job_id, true).expect("to publish active graph");
    assert_eq!(scheduler.manager.running_job_number(), 1);
}
