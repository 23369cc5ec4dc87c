//! Job status, as far as the task manager reads it or makes it.
use std::sync::Arc;

use vstd::prelude::*;

verus! {

/// What a job reports of its state besides the state itself, in the encoded
/// form in which it is sent. Copies of a status share it.
pub type StateDetails = Arc<Vec<u8>>;

/// `Arc::clone` of the standard library: another handle to the same value.
#[verifier::external_body]
fn share_details(details: &StateDetails) -> (shared: StateDetails)
    ensures
        shared == *details,
{
    Arc::clone(details)
}

/// What is known of a job that failed.
#[derive(Debug, PartialEq, Eq)]
pub struct FailedJob {
    /// Why the job failed.
    pub error: String,
    /// When the job was queued, in milliseconds since the epoch.
    pub queued_at: u64,
    /// When the job started, in milliseconds since the epoch; 0 if it never did.
    pub started_at: u64,
    /// When the job failed, in milliseconds since the epoch.
    pub ended_at: u64,
}

impl Clone for FailedJob {
    fn clone(&self) -> (copy: Self)
        ensures
            copy == *self,
    {
        FailedJob {
            error: self.error.clone(),
            queued_at: self.queued_at,
            started_at: self.started_at,
            ended_at: self.ended_at,
        }
    }
}

/// The state that a job reports.
#[derive(Debug, PartialEq, Eq)]
pub enum Status {
    /// Waiting to be planned.
    Queued(StateDetails),
    /// Its tasks are being scheduled.
    Running(StateDetails),
    /// It has failed.
    Failed(FailedJob),
    /// It has completed.
    Successful(StateDetails),
}

impl Clone for Status {
    fn clone(&self) -> (copy: Self)
        ensures
            copy == *self,
    {
        match self {
            Status::Queued(details) => Status::Queued(share_details(details)),
            Status::Running(details) => Status::Running(share_details(details)),
            Status::Failed(failed) => Status::Failed(failed.clone()),
            Status::Successful(details) => Status::Successful(share_details(details)),
        }
    }
}

/// A copy of a status that may be missing.
pub fn copy_status(status: &Option<Status>) -> (copy: Option<Status>)
    ensures
        copy == *status,
{
    match status {
        Some(status) => Some(status.clone()),
        None => None,
    }
}

/// A job's name and reported state.
#[derive(Debug, PartialEq, Eq)]
pub struct JobStatus {
    /// Unique identifier of the job.
    pub job_id: String,
    /// Human-readable name of the job.
    pub job_name: String,
    /// The reported state, if there is one.
    pub status: Option<Status>,
}

impl Clone for JobStatus {
    fn clone(&self) -> (copy: Self)
        ensures
            copy == *self,
    {
        JobStatus {
            job_id: self.job_id.clone(),
            job_name: self.job_name.clone(),
            status: copy_status(&self.status),
        }
    }
}

/// Whether a reported state is final.
pub open spec fn is_terminal_status(status: Option<Status>) -> bool {
    match status {
        Some(Status::Successful(_)) => true,
        Some(Status::Failed(_)) => true,
        _ => false,
    }
}

/// Whether a reported state is final: the job succeeded or failed.
pub fn is_terminal(status: &Option<Status>) -> (terminal: bool)
    ensures
        terminal == is_terminal_status(*status),
{
    match status {
        Some(Status::Successful(_)) => true,
        Some(Status::Failed(_)) => true,
        _ => false,
    }
}

/// Whether a reported state is the one of a running job.
pub open spec fn is_running_status(status: Option<Status>) -> bool {
    match status {
        Some(Status::Running(_)) => true,
        _ => false,
    }
}

/// Whether a reported state is the one of a running job.
pub fn is_running(status: &Option<Status>) -> (running: bool)
    ensures
        running == is_running_status(*status),
{
    match status {
        Some(Status::Running(_)) => true,
        _ => false,
    }
}

/// Whether a job is reported as failed.
pub open spec fn reports_failure(status: Option<JobStatus>) -> bool {
    match status {
        Some(JobStatus { status: Some(Status::Failed(_)), .. }) => true,
        _ => false,
    }
}

/// Whether a job is reported as failed.
pub fn is_failed(status: &Option<JobStatus>) -> (failed: bool)
    ensures
        failed == reports_failure(*status),
{
    match status {
        Some(status) => match &status.status {
            Some(Status::Failed(_)) => true,
            _ => false,
        },
        None => false,
    }
}

} // verus!
