//! Promises of submitting a job.
use vstd::prelude::*;

use crate::error::BallistaError;
use crate::graph::GraphId;
use crate::lifecycle::JobLifecycleControl;
use crate::manager::TaskManager;
use crate::promises::controls::{same_control, same_phase};
use crate::status::{JobStatus, Status};
use crate::submission::{
    FailingGraph, Notifying, Persisting, Planning, Reviving, SubmitRequest, SubmitStep, Unqueueing,
};

verus! {

/// A submission starts by planning the job as its session asks, in the name of
/// the manager's scheduler; a job that was aborted while it was queued is taken
/// out of the queue instead, for the reason that it was aborted for.
pub proof fn law_submission_starts<E>(
    manager: TaskManager,
    control: JobLifecycleControl,
    request: SubmitRequest,
    step: SubmitStep<E>,
)
    requires
        call_ensures(TaskManager::submit_job::<E>, (&manager, &control, request), step),
    ensures
        control.phase is Aborted ==> {
            &&& step matches SubmitStep::Unqueue(next)
            &&& next.request == request
            &&& next.reason@ == control.phase->reason@
        },
        !(control.phase is Aborted) ==> {
            &&& step matches SubmitStep::Plan(next)
            &&& next.request == request
            &&& next.planner is Adaptive <==> request.adaptive_planning
            &&& next.planner is Static <==> !request.adaptive_planning
            &&& next.scheduler_id@ == manager@.scheduler_id
        },
{
}

/// A job whose planning failed ends with that error, and its control does not
/// change.
pub proof fn law_planning_error_is_returned<E>(
    at: Planning,
    control: &mut JobLifecycleControl,
    error: BallistaError<E>,
    step: SubmitStep<E>,
)
    requires
        call_ensures(Planning::planned::<E>, (at, control, Err(error)), step),
    ensures
        step == SubmitStep::<E>::Finished(Err(error)),
        same_control(*final(control), *old(control)),
{
}

/// A planned job is handed to the job state with its graph, and its publication
/// begins, if it is still queued. An aborted job is taken out of the queue for
/// the reason that it was aborted for; one that another submission has taken is
/// refused. In both cases its control does not change.
pub proof fn law_planned_job_needs_its_control<E>(
    at: Planning,
    control: &mut JobLifecycleControl,
    graph: GraphId,
    step: SubmitStep<E>,
)
    requires
        call_ensures(Planning::planned::<E>, (at, control, Ok(graph)), step),
    ensures
        old(control).phase is Queued ==> {
            &&& step matches SubmitStep::Persist(next)
            &&& next.request == at.request
            &&& next.graph == graph
            &&& final(control).phase is Publishing
            &&& !final(control).publication_finished
        },
        !(old(control).phase is Queued) ==> same_control(*final(control), *old(control)),
        old(control).phase is Aborted ==> {
            &&& step matches SubmitStep::Unqueue(next)
            &&& next.request == at.request
            &&& next.reason@ == old(control).phase->reason@
        },
        old(control).phase is Publishing || old(control).phase is Active ==> {
            &&& step matches SubmitStep::Finished(Err(BallistaError::Internal(text)))
            &&& text@ == "Job "@ + at.request.job_id@ + " is already being submitted"@
        },
{
}

/// However failing a queued job ended, its subscriber is told next, with the
/// same reason; and then the submission is cancelled.
pub proof fn law_aborted_submission_notifies_then_cancels<E>(
    at: Unqueueing,
    outcome: Result<(), BallistaError<E>>,
    notifying: Notifying,
    step: SubmitStep<E>,
    last: SubmitStep<E>,
)
    requires
        call_ensures(Unqueueing::unqueued::<E>, (at, outcome), step),
        call_ensures(Notifying::notified::<E>, (notifying,), last),
    ensures
        step matches SubmitStep::Notify(next) && next.request == at.request && next.reason
            == at.reason,
        last matches SubmitStep::Finished(outcome) && outcome matches Err(error) && error
            is Cancelled,
{
}

/// A job that the job state refused ends with that refusal and is queued again
/// if it was being published; if it was aborted in the meantime, its subscriber
/// is told why.
pub proof fn law_refused_job_is_queued_again<E>(
    at: Persisting,
    control: &mut JobLifecycleControl,
    error: BallistaError<E>,
    step: SubmitStep<E>,
)
    requires
        call_ensures(Persisting::persisted::<E>, (at, control, Err(error)), step),
    ensures
        old(control).phase is Aborted ==> {
            &&& step matches SubmitStep::Notify(next)
            &&& next.request == at.request
            &&& next.reason@ == old(control).phase->reason@
        },
        !(old(control).phase is Aborted) ==> step == SubmitStep::<E>::Finished(Err(error)),
        old(control).phase is Publishing ==> final(control).phase is Queued,
        !(old(control).phase is Publishing) ==> same_phase(
            final(control).phase,
            old(control).phase,
        ),
        final(control).publication_finished == old(control).publication_finished,
{
}

/// A job that the job state accepted is revived if it is still being published,
/// and its graph is failed for the reason on the tombstone if it was aborted in
/// the meantime; in any other phase the submission is given up. The control does
/// not change.
pub proof fn law_accepted_job_follows_its_control<E>(
    at: Persisting,
    control: &mut JobLifecycleControl,
    step: SubmitStep<E>,
)
    requires
        call_ensures(Persisting::persisted::<E>, (at, control, Ok(())), step),
    ensures
        same_control(*final(control), *old(control)),
        old(control).phase is Publishing ==> {
            &&& step matches SubmitStep::Revive(next)
            &&& next.request == at.request
            &&& next.graph == at.graph
        },
        old(control).phase is Aborted ==> {
            &&& step matches SubmitStep::FailGraph(next)
            &&& next.request == at.request
            &&& next.graph == at.graph
            &&& next.reason@ == old(control).phase->reason@
        },
        old(control).phase is Queued || old(control).phase is Active ==> {
            &&& step matches SubmitStep::Finished(Err(BallistaError::Internal(text)))
            &&& text@ == "Job "@ + at.request.job_id@
                + " reached an invalid lifecycle phase before publication"@
        },
{
}

/// A revived job that is still being published succeeds: it is active with its
/// graph, the state that the graph reports and no plan; the graph that it
/// replaces is handed out; no other job and no control in the manager's map
/// changes.
pub proof fn law_revived_job_is_published<E>(
    at: Reviving,
    manager: &mut TaskManager,
    control: &mut JobLifecycleControl,
    status: JobStatus,
    out: (SubmitStep<E>, Option<GraphId>),
    other: Seq<char>,
)
    requires
        call_ensures(Reviving::revived::<E>, (at, manager, control, &status), out),
        old(control).phase is Publishing,
    ensures
        out.0 == SubmitStep::<E>::Finished(Ok(())),
        final(control).phase is Active,
        final(control).publication_finished == old(control).publication_finished,
        final(manager)@.active.contains_key(at.request.job_id@),
        final(manager)@.active[at.request.job_id@].execution_graph == at.graph,
        final(manager)@.active[at.request.job_id@].status == status.status,
        final(manager)@.active[at.request.job_id@].plans.dom() == Set::<usize>::empty(),
        out.1 is Some <==> old(manager)@.active.contains_key(at.request.job_id@),
        out.1 matches Some(replaced) ==> replaced
            == old(manager)@.active[at.request.job_id@].execution_graph,
        other != at.request.job_id@ ==> {
            &&& final(manager)@.active.contains_key(other) <==> old(
                manager,
            )@.active.contains_key(other)
            &&& final(manager)@.active.contains_key(other) ==> final(manager)@.active[other]
                == old(manager)@.active[other]
        },
        final(manager)@.controls == old(manager)@.controls,
        final(manager)@.scheduler_id == old(manager)@.scheduler_id,
        final(manager)@.caches_plans == old(manager)@.caches_plans,
{
}

/// A revived job that is no longer being published is not published: the manager
/// and the control do not change. The graph of an aborted job is failed for the
/// reason on the tombstone; in any other phase the submission is given up.
pub proof fn law_other_revived_jobs_are_not_published<E>(
    at: Reviving,
    manager: &mut TaskManager,
    control: &mut JobLifecycleControl,
    status: JobStatus,
    out: (SubmitStep<E>, Option<GraphId>),
)
    requires
        call_ensures(Reviving::revived::<E>, (at, manager, control, &status), out),
        !(old(control).phase is Publishing),
    ensures
        out.1 is None,
        final(manager)@ == old(manager)@,
        same_control(*final(control), *old(control)),
        old(control).phase is Aborted ==> {
            &&& out.0 matches SubmitStep::FailGraph(next)
            &&& next.request == at.request
            &&& next.graph == at.graph
            &&& next.reason@ == old(control).phase->reason@
        },
        !(old(control).phase is Aborted) ==> {
            &&& out.0 matches SubmitStep::Finished(Err(BallistaError::Internal(text)))
            &&& text@ == "Job "@ + at.request.job_id@
                + " reached an invalid lifecycle phase before publication"@
        },
{
}

/// A submission whose graph was failed never succeeds: it is cancelled if the
/// graph was saved, and else ends with the error of saving.
pub proof fn law_failed_graph_ends_in_an_error<E>(
    at: FailingGraph,
    outcome: Result<(), BallistaError<E>>,
    step: SubmitStep<E>,
)
    requires
        call_ensures(FailingGraph::saved::<E>, (at, outcome), step),
    ensures
        step matches SubmitStep::Finished(ended) && ended is Err,
        outcome is Ok ==> step->Finished_0->Err_0 is Cancelled,
        outcome matches Err(error) ==> step->Finished_0->Err_0 == error,
{
}

/// A subscriber of an aborted job, and nobody else, is sent a notice: the job
/// has failed for the given reason at the given time, and never started.
pub proof fn law_notice_tells_the_failure(
    subscribed: bool,
    job_id: &str,
    job_name: &str,
    queued_at: u64,
    error: &str,
    timestamp: u64,
    notice: Option<JobStatus>,
)
    requires
        call_ensures(
            TaskManager::notify_failed_subscriber,
            (subscribed, job_id, job_name, queued_at, error, timestamp),
            notice,
        ),
    ensures
        notice is Some <==> subscribed,
        notice matches Some(sent) ==> {
            &&& sent.job_id@ == job_id@
            &&& sent.job_name@ == job_name@
            &&& sent.status matches Some(Status::Failed(failed))
            &&& failed.error@ == error@
            &&& failed.queued_at == queued_at
            &&& failed.started_at == 0
            &&& failed.ended_at == timestamp
        },
{
}

} // verus!
