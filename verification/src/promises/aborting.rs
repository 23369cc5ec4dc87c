//! Promises of aborting a job.
use vstd::prelude::*;

use crate::abort::{
    abort_goes_on, AbortEvent, AbortStep, AwaitingPublication, CheckingPublication,
    ConfirmingFailure, FailingActive, FailingUnscheduled, SavingFailed, UnqueueingAborted,
};
use crate::error::BallistaError;
use crate::laws::abort_runs;
use crate::lifecycle::{JobLifecycleControl, LifecycleId};
use crate::manager::TaskManager;
use crate::status::{JobStatus, Status};

verus! {

/// After the start of an abort the job is aborted, for the reason of the first
/// abort, and not active; no other job changes. The graph of an active job is to
/// be failed; a job without one is to be taken out of the queue, and it is noted
/// whether it was being published.
pub proof fn law_abort_takes_the_job_out<E, R>(
    manager: &mut TaskManager,
    control: &mut JobLifecycleControl,
    job_id: &str,
    reason: String,
    step: AbortStep<E, R>,
    other: Seq<char>,
)
    requires
        call_ensures(TaskManager::abort_job::<E, R>, (manager, control, job_id, reason), step),
    ensures
        final(control).phase is Aborted,
        final(control).phase->reason@ == if old(control).phase is Aborted {
            old(control).phase->reason@
        } else {
            reason@
        },
        final(control).publication_finished == old(control).publication_finished,
        !final(manager)@.active.contains_key(job_id@),
        other != job_id@ ==> {
            &&& final(manager)@.active.contains_key(other) <==> old(
                manager,
            )@.active.contains_key(other)
            &&& final(manager)@.active.contains_key(other) ==> final(manager)@.active[other]
                == old(manager)@.active[other]
        },
        final(manager)@.controls == old(manager)@.controls,
        final(manager)@.scheduler_id == old(manager)@.scheduler_id,
        final(manager)@.caches_plans == old(manager)@.caches_plans,
        old(manager)@.active.contains_key(job_id@) ==> {
            &&& step matches AbortStep::FailGraph(next)
            &&& next.job_id@ == job_id@
            &&& next.graph == old(manager)@.active[job_id@].execution_graph
            &&& next.reason@ == reason@
        },
        !old(manager)@.active.contains_key(job_id@) ==> {
            &&& step matches AbortStep::Unqueue(next)
            &&& next.job_id@ == job_id@
            &&& next.reason@ == reason@
            &&& next.was_publishing <==> old(control).phase is Publishing
        },
{
}

/// Cancelling is aborting for the reason "Cancelled".
pub proof fn law_cancelling_is_aborting<E, R>(
    manager: &mut TaskManager,
    control: &mut JobLifecycleControl,
    job_id: &str,
    step: AbortStep<E, R>,
    other: Seq<char>,
)
    requires
        call_ensures(TaskManager::cancel_job::<E, R>, (manager, control, job_id), step),
    ensures
        final(control).phase is Aborted,
        final(control).phase->reason@ == if old(control).phase is Aborted {
            old(control).phase->reason@
        } else {
            "Cancelled"@
        },
        final(control).publication_finished == old(control).publication_finished,
        !final(manager)@.active.contains_key(job_id@),
        other != job_id@ ==> {
            &&& final(manager)@.active.contains_key(other) <==> old(
                manager,
            )@.active.contains_key(other)
            &&& final(manager)@.active.contains_key(other) ==> final(manager)@.active[other]
                == old(manager)@.active[other]
        },
        final(manager)@.controls == old(manager)@.controls,
        final(manager)@.scheduler_id == old(manager)@.scheduler_id,
        final(manager)@.caches_plans == old(manager)@.caches_plans,
        old(manager)@.active.contains_key(job_id@) ==> {
            &&& step matches AbortStep::FailGraph(next)
            &&& next.job_id@ == job_id@
            &&& next.graph == old(manager)@.active[job_id@].execution_graph
            &&& next.reason@ == "Cancelled"@
        },
        !old(manager)@.active.contains_key(job_id@) ==> {
            &&& step matches AbortStep::Unqueue(next)
            &&& next.job_id@ == job_id@
            &&& next.reason@ == "Cancelled"@
            &&& next.was_publishing <==> old(control).phase is Publishing
        },
{
}

/// A failed graph is always saved next, whatever was running or pending, and the
/// outcome of saving is the outcome: a success comes with what was running and
/// pending when the graph was failed.
pub proof fn law_failed_graph_is_saved<E, R>(
    failing: FailingActive,
    running_tasks: Vec<R>,
    pending_tasks: usize,
    step: AbortStep<E, R>,
    saving: SavingFailed<R>,
    outcome: Result<(), BallistaError<E>>,
    last: AbortStep<E, R>,
)
    requires
        call_ensures(FailingActive::failed::<E, R>, (failing, running_tasks, pending_tasks), step),
        call_ensures(SavingFailed::<R>::saved::<E>, (saving, outcome), last),
    ensures
        step matches AbortStep::SaveGraph(next) && {
            &&& next.job_id == failing.job_id
            &&& next.graph == failing.graph
            &&& next.running_tasks == running_tasks
            &&& next.pending_tasks == pending_tasks
        },
        last matches AbortStep::Finished(ended),
        outcome is Ok ==> (last->Finished_0 matches Ok(given) && given.0 == saving.running_tasks
            && given.1 == saving.pending_tasks),
        outcome matches Err(error) ==> (last->Finished_0 matches Err(given) && given == error),
{
}

/// Every abort of an active job that succeeds has saved the failed graph: the
/// graph that was failed was saved, saving it succeeded, and the outcome is what
/// was running and pending when it was failed.
pub proof fn law_acknowledged_abort_was_saved<E, R>(
    steps: Seq<AbortStep<E, R>>,
    events: Seq<AbortEvent<E, R>>,
)
    requires
        abort_runs(steps, events),
        steps[0] is FailGraph,
        steps.last() matches AbortStep::Finished(outcome) && outcome is Ok,
    ensures
        events.len() == 2,
        steps[1] matches AbortStep::SaveGraph(saving) && {
            &&& saving.graph == steps[0]->FailGraph_0.graph
            &&& saving.job_id == steps[0]->FailGraph_0.job_id
        },
        events[1] matches AbortEvent::Saved(saved) && saved is Ok,
        events[0] matches AbortEvent::Failed(running_tasks, pending_tasks)
            && steps.last()->Finished_0->Ok_0 == (running_tasks, pending_tasks),
{
    assert(abort_goes_on(steps[0], events[0], steps[1]));
    assert(events.len() >= 2);
    assert(abort_goes_on(steps[1], events[1], steps[2]));
    if events.len() > 2 {
        assert(abort_goes_on(steps[2], events[2], steps[3]));
    }
}

/// Taking an aborted job out of the queue ends the abort with nothing to cancel,
/// except when that failed and the job was being published: then its publisher is
/// waited for.
pub proof fn law_unqueued_job_has_nothing_to_cancel<E, R>(
    at: UnqueueingAborted,
    outcome: Result<(), BallistaError<E>>,
    step: AbortStep<E, R>,
)
    requires
        call_ensures(UnqueueingAborted::unqueued::<E, R>, (at, outcome), step),
    ensures
        outcome is Ok || !at.was_publishing ==> {
            &&& step matches AbortStep::Finished(Ok(given))
            &&& given.0@.len() == 0
            &&& given.1 == 0
        },
        outcome is Err && at.was_publishing ==> (step matches AbortStep::CheckPublication(next)
            && next.job_id == at.job_id),
{
}

/// A publication is waited for until it is seen to have finished; then the job's
/// status is read. If it can no longer be observed, the abort fails.
pub proof fn law_publication_is_waited_for<E, R>(
    checking: CheckingPublication,
    finished: bool,
    step: AbortStep<E, R>,
    awaiting: AwaitingPublication,
    changed: bool,
    next_step: AbortStep<E, R>,
)
    requires
        call_ensures(CheckingPublication::read::<E, R>, (checking, finished), step),
        call_ensures(AwaitingPublication::changed::<E, R>, (awaiting, changed), next_step),
    ensures
        finished ==> (step matches AbortStep::ReadStatus(next) && next.job_id == checking.job_id),
        !finished ==> (step matches AbortStep::AwaitPublication(next) && next.job_id
            == checking.job_id),
        changed ==> (next_step matches AbortStep::CheckPublication(next) && next.job_id
            == awaiting.job_id),
        !changed ==> {
            &&& next_step matches AbortStep::Finished(Err(BallistaError::Internal(text)))
            &&& text@ == "Job "@ + awaiting.job_id@
                + " publication ended without reporting completion"@
        },
{
}

/// After a publication has finished the abort succeeds, with nothing to cancel,
/// if and only if the job is reported as failed.
pub proof fn law_only_a_failed_job_is_acknowledged<E, R>(
    at: ConfirmingFailure,
    status: Result<Option<JobStatus>, BallistaError<E>>,
    step: AbortStep<E, R>,
)
    requires
        call_ensures(ConfirmingFailure::read::<E, R>, (at, status), step),
    ensures
        step matches AbortStep::Finished(outcome),
        step->Finished_0 is Ok <==> (status matches Ok(Some(known)) && known.status matches Some(
            Status::Failed(_),
        )),
        step->Finished_0 matches Ok(given) ==> given.0@.len() == 0 && given.1 == 0,
        status matches Err(error) ==> (step->Finished_0 matches Err(given) && given == error),
        status is Ok && step->Finished_0 is Err ==> {
            &&& step->Finished_0 matches Err(BallistaError::Internal(text))
            &&& text@ == "Job "@ + at.job_id@
                + " cancellation did not reach a durable failed state"@
        },
{
}

/// Every abort of a job that was not active and succeeds is durable, or has lost
/// nothing: the queued job was failed, or it was not being published, or the job
/// state reported it as failed after its publication had finished.
pub proof fn law_acknowledged_abort_of_inactive_job<E, R>(
    steps: Seq<AbortStep<E, R>>,
    events: Seq<AbortEvent<E, R>>,
)
    requires
        abort_runs(steps, events),
        steps[0] is Unqueue,
        steps.last() matches AbortStep::Finished(outcome) && outcome is Ok,
    ensures
        steps.last()->Finished_0->Ok_0.0@.len() == 0,
        steps.last()->Finished_0->Ok_0.1 == 0,
        ({
            ||| !steps[0]->Unqueue_0.was_publishing
            ||| events[0] matches AbortEvent::Unqueued(outcome) && outcome is Ok
            ||| {
                &&& events.len() >= 3
                &&& events[events.len() - 2] matches AbortEvent::PublicationRead(finished)
                &&& finished
                &&& events.last() matches AbortEvent::StatusRead(Ok(status))
                &&& says_failed(status)
            }
        }),
{
    assert(abort_goes_on(steps[0], events[0], steps[1]));
    if events.len() == 1 {
    } else {
        assert(abort_goes_on(steps[1], events[1], steps[2]));
        lemma_waiting(steps, events, steps.len() - 1);
        let last = events.len() - 1;
        assert(abort_goes_on(steps[last], events[last], steps[last + 1]));
        lemma_waiting(steps, events, last);
        assert(abort_goes_on(steps[last - 1], events[last - 1], steps[last]));
        lemma_waiting(steps, events, last - 1);
    }
}

/// Whether a status says that the job has failed.
pub open spec fn says_failed(status: Option<JobStatus>) -> bool {
    status matches Some(known) && known.status matches Some(Status::Failed(_))
}

/// Where an abort that waits for a publisher can stand.
proof fn lemma_waiting<E, R>(
    steps: Seq<AbortStep<E, R>>,
    events: Seq<AbortEvent<E, R>>,
    at: int,
)
    requires
        abort_runs(steps, events),
        steps[0] is Unqueue,
        steps[1] is CheckPublication,
        1 <= at < steps.len(),
    ensures
        steps[at] is CheckPublication || steps[at] is AwaitPublication || steps[at] is ReadStatus
            || steps[at] is Finished,
        steps[at] is ReadStatus ==> at > 1,
    decreases at,
{
    if at > 1 {
        lemma_waiting(steps, events, at - 1);
        assert(abort_goes_on(steps[at - 1], events[at - 1], steps[at]));
    }
}

/// Failing an unscheduled job aborts it, for the reason of the first abort, and
/// asks for the queued job to be failed for the given one.
pub proof fn law_unscheduled_job_is_aborted(
    control: &mut JobLifecycleControl,
    lifecycle: LifecycleId,
    job_id: &str,
    reason: String,
    next: FailingUnscheduled,
)
    requires
        call_ensures(
            TaskManager::fail_unscheduled_job,
            (control, lifecycle, job_id, reason),
            next,
        ),
    ensures
        final(control).phase is Aborted,
        final(control).phase->reason@ == if old(control).phase is Aborted {
            old(control).phase->reason@
        } else {
            reason@
        },
        final(control).publication_finished == old(control).publication_finished,
        next.job_id@ == job_id@,
        next.lifecycle == lifecycle,
        next.reason@ == reason@,
{
}

/// A control is released if and only if the failure is durable and the control is
/// still the job's; no other job's control and no active job changes. The outcome
/// is handed on.
pub proof fn law_durable_failure_releases_the_control<E>(
    at: FailingUnscheduled,
    manager: &mut TaskManager,
    outcome: Result<(), BallistaError<E>>,
    out: (Result<(), BallistaError<E>>, bool),
    other: Seq<char>,
)
    requires
        call_ensures(FailingUnscheduled::unqueued::<E>, (at, manager, outcome), out),
    ensures
        out.0 == outcome,
        out.1 <==> outcome is Ok && old(manager)@.controls.contains_key(at.job_id@) && old(
            manager,
        )@.controls[at.job_id@] == at.lifecycle,
        out.1 ==> !final(manager)@.controls.contains_key(at.job_id@),
        !out.1 ==> final(manager)@ == old(manager)@,
        other != at.job_id@ ==> {
            &&& final(manager)@.controls.contains_key(other) <==> old(
                manager,
            )@.controls.contains_key(other)
            &&& final(manager)@.controls.contains_key(other) ==> final(manager)@.controls[other]
                == old(manager)@.controls[other]
        },
        final(manager)@.active == old(manager)@.active,
        final(manager)@.scheduler_id == old(manager)@.scheduler_id,
        final(manager)@.caches_plans == old(manager)@.caches_plans,
{
}

} // verus!
