//! Progress snapshots.
use std::sync::Arc;

use task_manager::lifecycle::{JobLifecycleControl, JobLifecyclePhase};
use task_manager::manager::TaskManager;
use task_manager::progress::{
    stage_snapshot, ExecutionStage, FailedStage, JobProgressSnapshot, JobProgressStages,
    ResolvedStage, RunningStage, SnapshotStep, StageProgress, StageVariant, SuccessfulStage,
    SNAPSHOT_BUDGET_MILLIS,
};
use task_manager::status::{FailedJob, JobStatus, StateDetails, Status};
use task_manager::submission::{Reviving, SubmitRequest, SubmitStep};

fn details() -> StateDetails {
    Arc::new(vec![4, 2])
}

fn row(
    stage_id: usize,
    variant: StageVariant,
    partitions: usize,
    assigned: usize,
    completed: usize,
) -> StageProgress {
    StageProgress { stage_id, variant, partitions, assigned, completed }
}

fn running(partitions: usize, task_infos: Vec<Option<u8>>) -> ExecutionStage<u8> {
    ExecutionStage::Running(RunningStage { partitions, task_infos })
}

#[test]
fn rows_of_all_variants() {
    assert_eq!(
        stage_snapshot::<u8>(1, &ExecutionStage::UnResolved),
        row(1, StageVariant::Unresolved, 0, 0, 0)
    );
    assert_eq!(
        stage_snapshot::<u8>(2, &ExecutionStage::Resolved(ResolvedStage { partitions: 3 })),
        row(2, StageVariant::Resolved, 3, 0, 0)
    );
    assert_eq!(
        stage_snapshot(3, &running(4, vec![None, Some(1), Some(2), None])),
        row(3, StageVariant::Running, 4, 2, 0)
    );
    assert_eq!(
        stage_snapshot::<u8>(4, &ExecutionStage::Successful(SuccessfulStage { partitions: 5 })),
        row(4, StageVariant::Successful, 5, 5, 5)
    );
    assert_eq!(
        stage_snapshot::<u8>(5, &ExecutionStage::Failed(FailedStage { partitions: 6 })),
        row(5, StageVariant::Failed, 6, 0, 0)
    );
}

#[test]
fn running_stage_counts_all_bound_tasks() {
    assert_eq!(stage_snapshot(0, &running(0, vec![])).assigned, 0);
    assert_eq!(stage_snapshot(0, &running(2, vec![Some(1), Some(2)])).assigned, 2);
}

type Stages = Vec<(usize, ExecutionStage<u8>)>;

fn activate(manager: &mut TaskManager, graph: u64, job_id: &str, status: Option<Status>) {
    let mut control = JobLifecycleControl {
        phase: JobLifecyclePhase::Publishing,
        publication_finished: false,
    };
    let request = SubmitRequest {
        job_id: job_id.to_owned(),
        job_name: "job".to_owned(),
        session_id: "session".to_owned(),
        queued_at: 0,
        adaptive_planning: false,
    };
    let reported = JobStatus { job_id: job_id.to_owned(), job_name: "job".to_owned(), status };
    let (step, _): (SubmitStep<String>, _) =
        Reviving { request, graph }.revived(manager, &mut control, &reported);
    assert_eq!(step, SubmitStep::Finished(Ok(())));
}

/// Captures all active jobs, reading the stages of each graph from `read`.
fn capture(manager: &TaskManager, read: impl Fn(u64) -> Option<Stages>) -> Vec<JobProgressSnapshot> {
    let mut step = manager.capture_progress_snapshot();
    loop {
        step = match step {
            SnapshotStep::ReadGraph(at) => {
                assert_eq!(at.budget_millis, 500);
                let stages = read(at.graph);
                at.read(stages)
            }
            SnapshotStep::Finished(snapshots) => return snapshots,
        }
    }
}

#[test]
fn snapshot_is_ordered_by_stage() {
    let mut manager = TaskManager::new("s".to_owned());
    activate(&mut manager, 1, "j", None);
    let first = capture(&manager, |_| {
        Some(vec![
            (2, running(1, vec![None])),
            (0, ExecutionStage::UnResolved),
            (1, ExecutionStage::Resolved(ResolvedStage { partitions: 9 })),
        ])
    });
    let second = capture(&manager, |_| {
        Some(vec![
            (1, ExecutionStage::Resolved(ResolvedStage { partitions: 9 })),
            (2, running(1, vec![None])),
            (0, ExecutionStage::UnResolved),
        ])
    });
    assert_eq!(
        first,
        vec![JobProgressSnapshot {
            job_id: "j".to_owned(),
            is_terminal: false,
            stages: JobProgressStages::Readable(vec![
                row(0, StageVariant::Unresolved, 0, 0, 0),
                row(1, StageVariant::Resolved, 9, 0, 0),
                row(2, StageVariant::Running, 1, 0, 0),
            ]),
        }]
    );
    assert_eq!(first, second);
}

#[test]
fn rows_of_one_stage_keep_their_order() {
    let mut manager = TaskManager::new("s".to_owned());
    activate(&mut manager, 1, "j", None);
    let snapshots = capture(&manager, |_| {
        Some(vec![
            (1, running(1, vec![Some(1)])),
            (0, running(2, vec![])),
            (1, running(3, vec![])),
        ])
    });
    assert_eq!(
        snapshots[0].stages,
        JobProgressStages::Readable(vec![
            row(0, StageVariant::Running, 2, 0, 0),
            row(1, StageVariant::Running, 1, 1, 0),
            row(1, StageVariant::Running, 3, 0, 0),
        ])
    );
}

#[test]
fn every_active_job_is_captured_once() {
    let failed = Status::Failed(FailedJob {
        error: String::new(),
        queued_at: 0,
        started_at: 0,
        ended_at: 0,
    });
    let mut manager = TaskManager::new("s".to_owned());
    activate(&mut manager, 1, "a", None);
    activate(&mut manager, 2, "b", Some(Status::Queued(details())));
    activate(&mut manager, 3, "c", Some(Status::Running(details())));
    activate(&mut manager, 4, "d", Some(failed));
    activate(&mut manager, 5, "e", Some(Status::Successful(details())));
    let snapshots = capture(&manager, |graph| {
        if graph == 3 {
            Some(vec![(7, ExecutionStage::UnResolved)])
        } else {
            None
        }
    });
    assert_eq!(snapshots.len(), manager.running_job_number());
    let mut found: Vec<(String, bool, bool)> = snapshots
        .into_iter()
        .map(|snapshot| {
            let unreadable = snapshot.stages == JobProgressStages::Unreadable;
            (snapshot.job_id, snapshot.is_terminal, unreadable)
        })
        .collect();
    found.sort();
    assert_eq!(
        found,
        vec![
            ("a".to_owned(), false, true),
            ("b".to_owned(), false, true),
            ("c".to_owned(), false, false),
            ("d".to_owned(), true, true),
            ("e".to_owned(), true, true),
        ]
    );
}

#[test]
fn nothing_is_captured_of_no_job() {
    let manager = TaskManager::new("s".to_owned());
    assert!(capture(&manager, |_| None).is_empty());
    assert_eq!(SNAPSHOT_BUDGET_MILLIS, 500);
}
