//! Aborting a job, whatever stage of its lifecycle it is in.
//!
//! As with a submission, each step says what has to be done next, and the
//! value that it carries takes the outcome.
use vstd::prelude::*;

use crate::error::{job_message, message, BallistaError};
use crate::graph::GraphId;
use crate::lifecycle::{Control, JobLifecycleControl, LifecycleId};
use crate::manager::{Manager, TaskManager};
use crate::status::{is_failed, reports_failure, JobStatus};

verus! {

/// The graph of an active job has to be failed. What it still has to run is
/// read first.
#[derive(Debug, PartialEq, Eq)]
pub struct FailingActive {
    pub job_id: String,
    /// The graph, which is no longer in the active cache.
    pub graph: GraphId,
    /// Why the job is aborted.
    pub reason: String,
}

/// The failed graph has to be saved. `R` describes a running task.
#[derive(Debug, PartialEq, Eq)]
pub struct SavingFailed<R> {
    pub job_id: String,
    pub graph: GraphId,
    /// The tasks that were running.
    pub running_tasks: Vec<R>,
    /// The number of tasks that were waiting for resources.
    pub pending_tasks: usize,
}

/// The persistent job state has to be told that the queued job has failed.
#[derive(Debug, PartialEq, Eq)]
pub struct UnqueueingAborted {
    pub job_id: String,
    /// Why the job is aborted.
    pub reason: String,
    /// Whether the job was being published when it was aborted.
    pub was_publishing: bool,
}

/// Whether the publication has finished has to be read from the job's control.
#[derive(Debug, PartialEq, Eq)]
pub struct CheckingPublication {
    pub job_id: String,
}

/// The publication's end has to be waited for.
#[derive(Debug, PartialEq, Eq)]
pub struct AwaitingPublication {
    pub job_id: String,
}

/// The job's status has to be read from the persistent job state.
#[derive(Debug, PartialEq, Eq)]
pub struct ConfirmingFailure {
    pub job_id: String,
}

/// What aborting a job needs next.
#[derive(Debug, PartialEq, Eq)]
pub enum AbortStep<E, R> {
    /// Fail the graph, then [`FailingActive::failed`].
    FailGraph(FailingActive),
    /// Save the graph, then [`SavingFailed::saved`].
    SaveGraph(SavingFailed<R>),
    /// Fail the queued job, then [`UnqueueingAborted::unqueued`].
    Unqueue(UnqueueingAborted),
    /// Read the control, then [`CheckingPublication::read`].
    CheckPublication(CheckingPublication),
    /// Wait for a change of the control, then [`AwaitingPublication::changed`].
    AwaitPublication(AwaitingPublication),
    /// Read the job's status, then [`ConfirmingFailure::read`].
    ReadStatus(ConfirmingFailure),
    /// Nothing: this is the outcome. A success comes with the running tasks
    /// that have to be cancelled and the number of tasks that were pending.
    Finished(Result<(Vec<R>, usize), BallistaError<E>>),
}

/// The message of a publication whose end can no longer be observed.
pub open spec fn publication_lost(job_id: Seq<char>) -> Seq<char> {
    message("Job "@, job_id, " publication ended without reporting completion"@)
}

/// The message of a cancellation that the persistent job state does not show.
pub open spec fn not_durable(job_id: Seq<char>) -> Seq<char> {
    message("Job "@, job_id, " cancellation did not reach a durable failed state"@)
}

/// Whether aborting a job succeeds with nothing to cancel.
pub open spec fn nothing_to_cancel<E, R>(step: AbortStep<E, R>) -> bool {
    &&& step matches AbortStep::Finished(Ok((tasks, pending)))
    &&& tasks@ == Seq::<R>::empty()
    &&& pending == 0
}

/// What the start of an abort does: the control gets a tombstone and the active
/// cache loses the job. A graph that was cached has to be failed; without one,
/// the queued job has to be.
pub open spec fn abort_started<E, R>(
    before: (Manager, Control),
    job_id: Seq<char>,
    reason: Seq<char>,
    after: (Manager, Control),
    step: AbortStep<E, R>,
) -> bool {
    &&& after.0 == before.0.without_active(job_id)
    &&& after.1 == before.1.tombstone(reason)
    &&& match before.0.graph_of(job_id) {
        Some(graph) => {
            &&& step matches AbortStep::FailGraph(next)
            &&& next.job_id@ == job_id
            &&& next.graph == graph
            &&& next.reason@ == reason
        },
        None => {
            &&& step matches AbortStep::Unqueue(next)
            &&& next.job_id@ == job_id
            &&& next.reason@ == reason
            &&& next.was_publishing == (before.1.phase is Publishing)
        },
    }
}

/// What comes of a step of aborting a job.
pub enum AbortEvent<E, R> {
    /// The graph was failed; these tasks were running, and so many were pending.
    Failed(Vec<R>, usize),
    /// The failed graph was saved, or not.
    Saved(Result<(), BallistaError<E>>),
    /// The queued job was failed, or not.
    Unqueued(Result<(), BallistaError<E>>),
    /// The flag on the control was read.
    PublicationRead(bool),
    /// The control has changed, or is gone.
    ControlChanged(bool),
    /// The job's status was read, or not.
    StatusRead(Result<Option<JobStatus>, BallistaError<E>>),
}

/// Whether `next` is the step that follows `step` after `event`.
pub open spec fn abort_goes_on<E, R>(
    step: AbortStep<E, R>,
    event: AbortEvent<E, R>,
    next: AbortStep<E, R>,
) -> bool {
    match (step, event) {
        (AbortStep::FailGraph(at), AbortEvent::Failed(running_tasks, pending_tasks)) => {
            let saving = SavingFailed {
                job_id: at.job_id,
                graph: at.graph,
                running_tasks,
                pending_tasks,
            };
            next == AbortStep::<E, R>::SaveGraph(saving)
        },
        (AbortStep::SaveGraph(at), AbortEvent::Saved(Ok(_))) => next == AbortStep::<
            E,
            R,
        >::Finished(Ok((at.running_tasks, at.pending_tasks))),
        (AbortStep::SaveGraph(_), AbortEvent::Saved(Err(error))) => next == AbortStep::<
            E,
            R,
        >::Finished(Err(error)),
        (AbortStep::Unqueue(at), AbortEvent::Unqueued(outcome)) => if at.was_publishing
            && outcome is Err {
            next == AbortStep::<E, R>::CheckPublication(CheckingPublication { job_id: at.job_id })
        } else {
            nothing_to_cancel(next)
        },
        (AbortStep::CheckPublication(at), AbortEvent::PublicationRead(finished)) => next == (
        if finished {
            AbortStep::<E, R>::ReadStatus(ConfirmingFailure { job_id: at.job_id })
        } else {
            AbortStep::<E, R>::AwaitPublication(AwaitingPublication { job_id: at.job_id })
        }),
        (AbortStep::AwaitPublication(at), AbortEvent::ControlChanged(changed)) => if changed {
            next == AbortStep::<E, R>::CheckPublication(CheckingPublication { job_id: at.job_id })
        } else {
            &&& next matches AbortStep::Finished(Err(BallistaError::Internal(text)))
            &&& text@ == publication_lost(at.job_id@)
        },
        (AbortStep::ReadStatus(at), AbortEvent::StatusRead(Ok(status))) => if reports_failure(
            status,
        ) {
            nothing_to_cancel(next)
        } else {
            &&& next matches AbortStep::Finished(Err(BallistaError::Internal(text)))
            &&& text@ == not_durable(at.job_id@)
        },
        (AbortStep::ReadStatus(_), AbortEvent::StatusRead(Err(error))) => next == AbortStep::<
            E,
            R,
        >::Finished(Err(error)),
        _ => false,
    }
}

/// Succeeds with nothing to cancel.
fn finish_empty<E, R>() -> (step: AbortStep<E, R>)
    ensures
        nothing_to_cancel(step),
{
    AbortStep::Finished(Ok((Vec::new(), 0)))
}

/// What the start of failing an unscheduled job does: the control gets a
/// tombstone, and the queued job has to be failed.
pub open spec fn unscheduled_failure_started(
    before: Control,
    lifecycle: LifecycleId,
    job_id: Seq<char>,
    reason: Seq<char>,
    after: Control,
    next: FailingUnscheduled,
) -> bool {
    &&& after == before.tombstone(reason)
    &&& next.job_id@ == job_id
    &&& next.lifecycle == lifecycle
    &&& next.reason@ == reason
}

impl TaskManager {
    /// Starts aborting a job: puts a tombstone on its control and takes its graph
    /// out of the active cache, in one critical section of the control.
    pub fn abort_job<E, R>(
        &mut self,
        control: &mut JobLifecycleControl,
        job_id: &str,
        failure_reason: String,
    ) -> (step: AbortStep<E, R>)
        ensures
            abort_started(
                (old(self)@, old(control)@),
                job_id@,
                failure_reason@,
                (final(self)@, final(control)@),
                step,
            ),
    {
        let was_publishing = control.is_publishing();
        control.tombstone(&failure_reason);
        match self.remove_active_execution_graph(job_id) {
            Some(graph) => AbortStep::FailGraph(
                FailingActive { job_id: job_id.to_owned(), graph, reason: failure_reason },
            ),
            None => AbortStep::Unqueue(
                UnqueueingAborted {
                    job_id: job_id.to_owned(),
                    reason: failure_reason,
                    was_publishing,
                },
            ),
        }
    }

    /// Starts aborting a job on the user's behalf.
    pub fn cancel_job<E, R>(&mut self, control: &mut JobLifecycleControl, job_id: &str) -> (step:
        AbortStep<E, R>)
        ensures
            abort_started(
                (old(self)@, old(control)@),
                job_id@,
                "Cancelled"@,
                (final(self)@, final(control)@),
                step,
            ),
    {
        self.abort_job(control, job_id, "Cancelled".to_owned())
    }

    /// Starts failing a job that was never scheduled: puts a tombstone on its
    /// control.
    pub fn fail_unscheduled_job(
        control: &mut JobLifecycleControl,
        lifecycle: LifecycleId,
        job_id: &str,
        failure_reason: String,
    ) -> (next: FailingUnscheduled)
        ensures
            unscheduled_failure_started(
                old(control)@,
                lifecycle,
                job_id@,
                failure_reason@,
                final(control)@,
                next,
            ),
    {
        control.tombstone(&failure_reason);
        FailingUnscheduled { job_id: job_id.to_owned(), lifecycle, reason: failure_reason }
    }
}

impl FailingActive {
    /// Takes what the graph still had to run when it was failed.
    pub fn failed<E, R>(self, running_tasks: Vec<R>, pending_tasks: usize) -> (step: AbortStep<
        E,
        R,
    >)
        ensures
            abort_goes_on(
                AbortStep::FailGraph(self),
                AbortEvent::Failed(running_tasks, pending_tasks),
                step,
            ),
    {
        AbortStep::SaveGraph(
            SavingFailed { job_id: self.job_id, graph: self.graph, running_tasks, pending_tasks },
        )
    }
}

impl<R> SavingFailed<R> {
    /// Takes what came of saving the failed graph.
    pub fn saved<E>(self, outcome: Result<(), BallistaError<E>>) -> (step: AbortStep<E, R>)
        ensures
            abort_goes_on(AbortStep::SaveGraph(self), AbortEvent::Saved(outcome), step),
    {
        match outcome {
            Ok(_) => AbortStep::Finished(Ok((self.running_tasks, self.pending_tasks))),
            Err(error) => AbortStep::Finished(Err(error)),
        }
    }
}

impl UnqueueingAborted {
    /// Takes what came of failing the queued job. If that failed and the job
    /// was being published, persistent submission has won the race for the
    /// queued job, and the publisher is the one who fails it: its end is waited
    /// for before the cancellation is acknowledged.
    pub fn unqueued<E, R>(self, outcome: Result<(), BallistaError<E>>) -> (step: AbortStep<E, R>)
        ensures
            abort_goes_on(AbortStep::Unqueue(self), AbortEvent::Unqueued(outcome), step),
    {
        match outcome {
            Err(_) if self.was_publishing => AbortStep::CheckPublication(
                CheckingPublication { job_id: self.job_id },
            ),
            _ => finish_empty(),
        }
    }
}

impl CheckingPublication {
    /// Takes whether the publication has finished.
    pub fn read<E, R>(self, finished: bool) -> (step: AbortStep<E, R>)
        ensures
            abort_goes_on(
                AbortStep::CheckPublication(self),
                AbortEvent::PublicationRead(finished),
                step,
            ),
    {
        if finished {
            AbortStep::ReadStatus(ConfirmingFailure { job_id: self.job_id })
        } else {
            AbortStep::AwaitPublication(AwaitingPublication { job_id: self.job_id })
        }
    }
}

impl AwaitingPublication {
    /// Takes whether the control has changed, as opposed to being gone.
    pub fn changed<E, R>(self, changed: bool) -> (step: AbortStep<E, R>)
        ensures
            abort_goes_on(AbortStep::AwaitPublication(self), AbortEvent::ControlChanged(changed), step),
    {
        if changed {
            AbortStep::CheckPublication(CheckingPublication { job_id: self.job_id })
        } else {
            let text = job_message(
                "Job ",
                self.job_id.as_str(),
                " publication ended without reporting completion",
            );
            AbortStep::Finished(Err(BallistaError::Internal(text)))
        }
    }
}

impl ConfirmingFailure {
    /// Takes the job's status. The cancellation is acknowledged only if the
    /// job is durably failed.
    pub fn read<E, R>(self, status: Result<Option<JobStatus>, BallistaError<E>>) -> (step:
        AbortStep<E, R>)
        ensures
            abort_goes_on(AbortStep::ReadStatus(self), AbortEvent::StatusRead(status), step),
    {
        match status {
            Err(error) => AbortStep::Finished(Err(error)),
            Ok(status) => {
                if is_failed(&status) {
                    finish_empty()
                } else {
                    let text = job_message(
                        "Job ",
                        self.job_id.as_str(),
                        " cancellation did not reach a durable failed state",
                    );
                    AbortStep::Finished(Err(BallistaError::Internal(text)))
                }
            },
        }
    }
}

/// The persistent job state has to be told that a job which was never
/// scheduled has failed.
#[derive(Debug, PartialEq, Eq)]
pub struct FailingUnscheduled {
    pub job_id: String,
    /// The control on which the tombstone was put.
    pub lifecycle: LifecycleId,
    /// Why the job failed.
    pub reason: String,
}

impl FailingUnscheduled {
    /// Takes what came of failing the job, which is also the outcome. Once the
    /// failure is durable the control is released: its publisher has returned. A
    /// newer control of the same job stays. Also says whether the control was
    /// released.
    pub fn unqueued<E>(
        self,
        manager: &mut TaskManager,
        outcome: Result<(), BallistaError<E>>,
    ) -> (out: (Result<(), BallistaError<E>>, bool))
        ensures
            out.0 == outcome,
            out.1 == (outcome is Ok && old(manager)@.control_of(self.job_id@) == Some(
                self.lifecycle,
            )),
            final(manager)@ == (if out.1 {
                old(manager)@.without_control(self.job_id@)
            } else {
                old(manager)@
            }),
    {
        let released = match &outcome {
            Ok(_) => manager.release_lifecycle(self.job_id.as_str(), self.lifecycle),
            Err(_) => false,
        };
        (outcome, released)
    }
}

} // verus!
