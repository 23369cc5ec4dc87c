//! Submitting a job: from the queue, through the persistent job state, into
//! the active cache.
//!
//! A submission is a chain of steps. Each [`SubmitStep`] says what has to be
//! done next; when it is done, the outcome is handed to the value that the step
//! carries, which gives the next step. Where a step takes a
//! [`JobLifecycleControl`], that is one critical section of the job's control.
use vstd::prelude::*;

use crate::cache::JobInfo;
use crate::error::{job_message, message, BallistaError};
use crate::graph::GraphId;
use crate::lifecycle::{Control, JobLifecycleControl, Phase};
use crate::manager::{Manager, TaskManager};
use crate::status::{FailedJob, JobStatus, Status};

verus! {

/// What is asked of the manager when a job is submitted.
#[derive(Debug, PartialEq, Eq)]
pub struct SubmitRequest {
    /// Unique identifier of the job.
    pub job_id: String,
    /// Human-readable name of the job.
    pub job_name: String,
    /// Identifier of the session that the job belongs to.
    pub session_id: String,
    /// When the job was queued, in milliseconds since the epoch.
    pub queued_at: u64,
    /// Whether the session asks for adaptive query planning.
    pub adaptive_planning: bool,
}

/// How the execution graph of a job is made.
#[derive(Clone, Copy, Debug, PartialEq, Eq)]
pub enum Planner {
    /// The graph is planned anew as stages complete.
    Adaptive,
    /// The graph is planned once.
    Static,
}

/// The job's execution graph has to be planned.
#[derive(Debug, PartialEq, Eq)]
pub struct Planning {
    pub request: SubmitRequest,
    /// The planner to use.
    pub planner: Planner,
    /// The scheduler that will curate the job.
    pub scheduler_id: String,
}

/// The persistent job state has to be told that the queued job has failed.
#[derive(Debug, PartialEq, Eq)]
pub struct Unqueueing {
    pub request: SubmitRequest,
    /// Why the job was aborted.
    pub reason: String,
}

/// The subscriber to the job's status, if there is one, has to be told that
/// the job has failed.
#[derive(Debug, PartialEq, Eq)]
pub struct Notifying {
    pub request: SubmitRequest,
    /// Why the job was aborted.
    pub reason: String,
}

/// The planned graph has to be submitted to the persistent job state. The
/// publication has begun: whatever comes of it,
/// [`JobLifecycleControl::finish_publication`] is due at its end.
#[derive(Debug, PartialEq, Eq)]
pub struct Persisting {
    pub request: SubmitRequest,
    /// The planned graph.
    pub graph: GraphId,
}

/// The graph has to be revived, while the job's control stays locked.
#[derive(Debug, PartialEq, Eq)]
pub struct Reviving {
    pub request: SubmitRequest,
    /// The planned graph, which the persistent job state has accepted.
    pub graph: GraphId,
}

/// The graph has to be failed and saved as failed.
#[derive(Debug, PartialEq, Eq)]
pub struct FailingGraph {
    pub request: SubmitRequest,
    /// The planned graph, which the persistent job state has accepted.
    pub graph: GraphId,
    /// Why the job was aborted.
    pub reason: String,
}

/// What a submission needs next.
#[derive(Debug, PartialEq, Eq)]
pub enum SubmitStep<E> {
    /// Plan the graph, then [`Planning::planned`].
    Plan(Planning),
    /// Fail the queued job, then [`Unqueueing::unqueued`].
    Unqueue(Unqueueing),
    /// Tell the subscriber, then [`Notifying::notified`].
    Notify(Notifying),
    /// Submit the graph, then [`Persisting::persisted`].
    Persist(Persisting),
    /// Revive the graph, then [`Reviving::revived`].
    Revive(Reviving),
    /// Fail the graph and save it, then [`FailingGraph::saved`].
    FailGraph(FailingGraph),
    /// Nothing: this is the outcome of the submission.
    Finished(Result<(), BallistaError<E>>),
}

/// The message of a second submission of the same job.
pub open spec fn already_submitted(job_id: Seq<char>) -> Seq<char> {
    message("Job "@, job_id, " is already being submitted"@)
}

/// The message of a submission whose job left the control by another way.
pub open spec fn invalid_phase(job_id: Seq<char>) -> Seq<char> {
    message("Job "@, job_id, " reached an invalid lifecycle phase before publication"@)
}

/// Whether a persisted submission goes on as its job's control asks: revive the
/// graph of a job that is still being published, fail the graph of an aborted
/// one, and give up otherwise.
pub open spec fn follows_control<E>(
    request: SubmitRequest,
    graph: GraphId,
    phase: Phase,
    step: SubmitStep<E>,
) -> bool {
    match phase {
        Phase::Publishing => step == SubmitStep::<E>::Revive(Reviving { request, graph }),
        Phase::Aborted { reason } => refuses_persisted(request, graph, reason, step),
        _ => gives_up(request, step),
    }
}

/// Whether the graph of an aborted job is failed.
pub open spec fn refuses_persisted<E>(
    request: SubmitRequest,
    graph: GraphId,
    reason: Seq<char>,
    step: SubmitStep<E>,
) -> bool {
    &&& step matches SubmitStep::FailGraph(next)
    &&& next.request == request
    &&& next.graph == graph
    &&& next.reason@ == reason
}

/// Whether a submission ends because its job left the control by another way.
pub open spec fn gives_up<E>(request: SubmitRequest, step: SubmitStep<E>) -> bool {
    &&& step matches SubmitStep::Finished(Err(BallistaError::Internal(text)))
    &&& text@ == invalid_phase(request.job_id@)
}

/// Whether an aborted job is taken out of the queue.
pub open spec fn unqueues<E>(
    request: SubmitRequest,
    reason: Seq<char>,
    step: SubmitStep<E>,
) -> bool {
    &&& step matches SubmitStep::Unqueue(next)
    &&& next.request == request
    &&& next.reason@ == reason
}

/// Whether the subscriber of an aborted job is told.
pub open spec fn notifies<E>(
    request: SubmitRequest,
    reason: Seq<char>,
    step: SubmitStep<E>,
) -> bool {
    &&& step matches SubmitStep::Notify(next)
    &&& next.request == request
    &&& next.reason@ == reason
}

/// What the start of a submission does: a job whose control has a tombstone is
/// taken out of the queue, any other is planned.
pub open spec fn submission_started<E>(
    manager: Manager,
    request: SubmitRequest,
    control: Control,
    step: SubmitStep<E>,
) -> bool {
    match control.phase {
        Phase::Aborted { reason } => unqueues(request, reason, step),
        _ => {
            &&& step matches SubmitStep::Plan(next)
            &&& next.request == request
            &&& next.planner == if request.adaptive_planning {
                Planner::Adaptive
            } else {
                Planner::Static
            }
            &&& next.scheduler_id@ == manager.scheduler_id
        },
    }
}

/// What a submission does once its job was planned: a queued job passes
/// its control; one whose control has a tombstone is taken out of the queue; one that
/// another submission has taken past the control is refused. An error of the
/// planner is the outcome.
pub open spec fn submission_planned<E>(
    request: SubmitRequest,
    before: Control,
    plan: Result<GraphId, BallistaError<E>>,
    after: Control,
    step: SubmitStep<E>,
) -> bool {
    match plan {
        Err(error) => step == SubmitStep::<E>::Finished(Err(error)) && after == before,
        Ok(graph) => {
            &&& after == before.begin_publication()
            &&& match before.phase {
                Phase::Queued => step == SubmitStep::<E>::Persist(Persisting { request, graph }),
                Phase::Aborted { reason } => unqueues(request, reason, step),
                _ => {
                    &&& step matches SubmitStep::Finished(Err(BallistaError::Internal(text)))
                    &&& text@ == already_submitted(request.job_id@)
                },
            }
        },
    }
}

/// What a submission does once the persistent job state has answered: a
/// refused job is queued again, and the refusal is the outcome; the subscriber
/// of a job whose control has a tombstone is told instead. An accepted job goes on
/// as its control asks.
pub open spec fn submission_persisted<E>(
    at: Persisting,
    before: Control,
    outcome: Result<(), BallistaError<E>>,
    after: Control,
    step: SubmitStep<E>,
) -> bool {
    match outcome {
        Err(error) => {
            &&& after == before.withdraw_publication()
            &&& match before.phase {
                Phase::Aborted { reason } => notifies(at.request, reason, step),
                _ => step == SubmitStep::<E>::Finished(Err(error)),
            }
        },
        Ok(_) => {
            &&& after == before
            &&& follows_control(at.request, at.graph, before.phase, step)
        },
    }
}

/// What a submission does once its graph was revived: a job that is still
/// being published becomes active, with the graph that was planned for it and
/// the state that the graph reports; any other goes on as its control asks.
pub open spec fn submission_revived<E>(
    at: Reviving,
    before: (Manager, Control),
    status: JobStatus,
    after: (Manager, Control),
    step: SubmitStep<E>,
) -> bool {
    &&& after.1 == before.1.publish()
    &&& if before.1.phase is Publishing {
        &&& after.0 == before.0.with_active(
            at.request.job_id@,
            JobInfo::published(at.graph, status.status),
        )
        &&& step == SubmitStep::<E>::Finished(Ok(()))
    } else {
        &&& after.0 == before.0
        &&& follows_control(at.request, at.graph, before.1.phase, step)
    }
}

/// What a submission does once its job was failed in the queue, or was found
/// to have left it: the subscriber is told.
pub open spec fn submission_unqueued<E>(at: Unqueueing) -> SubmitStep<E> {
    SubmitStep::Notify(Notifying { request: at.request, reason: at.reason })
}

/// What a submission does once the subscriber was told: it ends as cancelled.
pub open spec fn submission_notified<E>() -> SubmitStep<E> {
    SubmitStep::Finished(Err(BallistaError::Cancelled))
}

/// What a submission does once the failed graph of an aborted job was saved: it
/// ends as cancelled, or with the error of saving.
pub open spec fn submission_saved<E>(outcome: Result<(), BallistaError<E>>) -> SubmitStep<E> {
    match outcome {
        Ok(_) => SubmitStep::Finished(Err(BallistaError::Cancelled)),
        Err(error) => SubmitStep::Finished(Err(error)),
    }
}

impl TaskManager {
    /// Starts the submission of a job. A job that was cancelled while it was
    /// queued is not planned.
    pub fn submit_job<E>(&self, control: &JobLifecycleControl, request: SubmitRequest) -> (step:
        SubmitStep<E>)
        ensures
            submission_started(self@, request, control@, step),
    {
        match control.abort_reason() {
            Some(reason) => SubmitStep::Unqueue(Unqueueing { request, reason }),
            None => {
                let planner = if request.adaptive_planning {
                    Planner::Adaptive
                } else {
                    Planner::Static
                };
                let scheduler_id = self.scheduler_id().clone();
                SubmitStep::Plan(Planning { request, planner, scheduler_id })
            },
        }
    }

    /// The status that the subscriber of an aborted job is sent, if there is a
    /// subscriber.
    pub fn notify_failed_subscriber(
        subscribed: bool,
        job_id: &str,
        job_name: &str,
        queued_at: u64,
        error: &str,
        timestamp: u64,
    ) -> (notice: Option<JobStatus>)
        ensures
            match notice {
                Some(notice) => {
                    &&& subscribed
                    &&& notice.job_id@ == job_id@
                    &&& notice.job_name@ == job_name@
                    &&& notice.status matches Some(Status::Failed(failed))
                    &&& failed.error@ == error@
                    &&& failed.queued_at == queued_at
                    &&& failed.started_at == 0
                    &&& failed.ended_at == timestamp
                },
                None => !subscribed,
            },
    {
        if !subscribed {
            return None;
        }
        Some(
            JobStatus {
                job_id: job_id.to_owned(),
                job_name: job_name.to_owned(),
                status: Some(
                    Status::Failed(
                        FailedJob {
                            error: error.to_owned(),
                            queued_at,
                            started_at: 0,
                            ended_at: timestamp,
                        },
                    ),
                ),
            },
        )
    }
}

impl Planning {
    /// Takes the planned graph, or the error of planning. A planned job passes its control if it
    /// is still queued; one that was aborted in the meantime does not, and
    /// neither does one that another submission has taken past it.
    pub fn planned<E>(
        self,
        control: &mut JobLifecycleControl,
        plan: Result<GraphId, BallistaError<E>>,
    ) -> (step: SubmitStep<E>)
        ensures
            submission_planned(self.request, old(control)@, plan, final(control)@, step),
    {
        let graph: GraphId = match plan {
            Err(error) => {
                return SubmitStep::Finished(Err(error));
            },
            Ok(graph) => graph,
        };
        if control.begin_publication() {
            return SubmitStep::Persist(Persisting { request: self.request, graph });
        }
        match control.abort_reason() {
            Some(reason) => SubmitStep::Unqueue(Unqueueing { request: self.request, reason }),
            None => {
                let text = job_message(
                    "Job ",
                    self.request.job_id.as_str(),
                    " is already being submitted",
                );
                SubmitStep::Finished(Err(BallistaError::Internal(text)))
            },
        }
    }
}

impl Unqueueing {
    /// Takes what came of failing the queued job. An error means that the job
    /// had already left the queue, which changes nothing.
    pub fn unqueued<E>(self, outcome: Result<(), BallistaError<E>>) -> (step: SubmitStep<E>)
        ensures
            step == submission_unqueued::<E>(self),
    {
        SubmitStep::Notify(Notifying { request: self.request, reason: self.reason })
    }
}

impl Notifying {
    /// Ends the submission of an aborted job.
    pub fn notified<E>(self) -> (step: SubmitStep<E>)
        ensures
            step == submission_notified::<E>(),
    {
        SubmitStep::Finished(Err(BallistaError::Cancelled))
    }
}

/// Decides how a persisted submission goes on.
fn follow_control<E>(
    request: SubmitRequest,
    graph: GraphId,
    control: &JobLifecycleControl,
) -> (step: SubmitStep<E>)
    ensures
        follows_control(request, graph, control@.phase, step),
{
    match control.abort_reason() {
        Some(reason) => SubmitStep::FailGraph(FailingGraph { request, graph, reason }),
        None => {
            if control.is_publishing() {
                SubmitStep::Revive(Reviving { request, graph })
            } else {
                let text = job_message(
                    "Job ",
                    request.job_id.as_str(),
                    " reached an invalid lifecycle phase before publication",
                );
                SubmitStep::Finished(Err(BallistaError::Internal(text)))
            }
        },
    }
}

impl Persisting {
    /// Takes what came of submitting the graph to the persistent job state. A
    /// job that was refused is queued again, unless it was aborted in the
    /// meantime: then its submission counts as cancelled, and its subscriber,
    /// whom the job state does not know, is told.
    pub fn persisted<E>(
        self,
        control: &mut JobLifecycleControl,
        outcome: Result<(), BallistaError<E>>,
    ) -> (step: SubmitStep<E>)
        ensures
            submission_persisted(self, old(control)@, outcome, final(control)@, step),
    {
        match outcome {
            Err(error) => match control.abort_reason() {
                Some(reason) => SubmitStep::Notify(Notifying { request: self.request, reason }),
                None => {
                    control.withdraw_publication();
                    SubmitStep::Finished(Err(error))
                },
            },
            Ok(_) => follow_control(self.request, self.graph, control),
        }
    }
}

impl Reviving {
    /// Publishes the revived graph, which reports `status`: puts it in the active cache and makes the
    /// job active. This is the linearization point of publication: a
    /// cancellation has either left its tombstone on the control, and then nothing
    /// is published here, or it comes later and finds the graph. Also returns
    /// the graph that the new one replaces.
    pub fn revived<E>(
        self,
        manager: &mut TaskManager,
        control: &mut JobLifecycleControl,
        status: &JobStatus,
    ) -> (out: (SubmitStep<E>, Option<GraphId>))
        ensures
            submission_revived(
                self,
                (old(manager)@, old(control)@),
                *status,
                (final(manager)@, final(control)@),
                out.0,
            ),
            out.1 == (if old(control)@.phase is Publishing {
                old(manager)@.graph_of(self.request.job_id@)
            } else {
                None
            }),
    {
        if control.publish() {
            let replaced = manager.cache_graph(
                self.request.job_id.as_str(),
                self.graph,
                status,
            );
            (SubmitStep::Finished(Ok(())), replaced)
        } else {
            (follow_control(self.request, self.graph, control), None)
        }
    }
}

impl FailingGraph {
    /// Takes what came of saving the failed graph, which ends the submission.
    pub fn saved<E>(self, outcome: Result<(), BallistaError<E>>) -> (step: SubmitStep<E>)
        ensures
            step == submission_saved(outcome),
    {
        match outcome {
            Ok(_) => SubmitStep::Finished(Err(BallistaError::Cancelled)),
            Err(error) => SubmitStep::Finished(Err(error)),
        }
    }
}

} // verus!
