//! What the task manager reads of an execution graph.
use vstd::prelude::*;

use crate::status::JobStatus;

verus! {

/// Stands for an execution graph, which is kept elsewhere.
pub type GraphId = u64;

/// The facts about an execution graph that the task manager reads.
#[derive(Debug, PartialEq, Eq)]
pub struct ExecutionGraph {
    /// The graph itself.
    pub id: GraphId,
    /// Unique identifier of the job.
    pub job_id: String,
    /// Human-readable name of the job.
    pub job_name: String,
    /// Status of the job.
    pub status: JobStatus,
    /// When the job started.
    pub start_time: u64,
    /// When the job ended (0 if it is still running).
    pub end_time: u64,
    /// Number of stages.
    pub stage_count: usize,
    /// Number of stages that have completed successfully.
    pub completed_stages: usize,
}

/// Summary of a job for display.
#[derive(Debug, PartialEq, Eq)]
pub struct JobOverview {
    /// Unique identifier of the job.
    pub job_id: String,
    /// Human-readable name of the job.
    pub job_name: String,
    /// Current status of the job.
    pub status: JobStatus,
    /// When the job started.
    pub start_time: u64,
    /// When the job ended (0 if it is still running).
    pub end_time: u64,
    /// Total number of stages in the job.
    pub num_stages: usize,
    /// Number of stages that have completed successfully.
    pub completed_stages: usize,
}

/// The summary of the job that a graph belongs to.
pub open spec fn overview_of(graph: ExecutionGraph) -> JobOverview {
    JobOverview {
        job_id: graph.job_id,
        job_name: graph.job_name,
        status: graph.status,
        start_time: graph.start_time,
        end_time: graph.end_time,
        num_stages: graph.stage_count,
        completed_stages: graph.completed_stages,
    }
}

impl vstd::std_specs::convert::FromSpecImpl<&ExecutionGraph> for JobOverview {
    open spec fn obeys_from_spec() -> bool {
        true
    }

    open spec fn from_spec(graph: &ExecutionGraph) -> Self {
        overview_of(*graph)
    }
}

impl From<&ExecutionGraph> for JobOverview {
    fn from(graph: &ExecutionGraph) -> (overview: Self) {
        JobOverview {
            job_id: graph.job_id.clone(),
            job_name: graph.job_name.clone(),
            status: graph.status.clone(),
            start_time: graph.start_time,
            end_time: graph.end_time,
            num_stages: graph.stage_count,
            completed_stages: graph.completed_stages,
        }
    }
}

} // verus!
