//! What holds of the task manager as a whole.
use vstd::multiset::Multiset;
use vstd::prelude::*;

use crate::abort::{
    abort_goes_on, abort_started, nothing_to_cancel, unscheduled_failure_started, AbortEvent,
    AbortStep, FailingUnscheduled,
};
use crate::cache::{stage_plan_encoded, JobInfo, JobInfoCache};
use crate::error::BallistaError;
use crate::graph::{overview_of, ExecutionGraph, GraphId};
use crate::jobs::{
    completion_started, counts_on, listing_read, lists_on, readable, sum_of_readable, Listing,
    ListingStep, PendingTasksStep, SucceedStep,
};
use crate::launch::{definitions_of, errors_of, stages_prepared};
use crate::lifecycle::{Control, LifecycleId, Phase};
use crate::manager::{active_plan_encoded, running_jobs, Manager};
use crate::maps::lists_active;
use crate::progress::{
    in_stage_order, of_stage, progress_read, reports, rows_of, snapshots_on, sorted_by_stage,
    stage_progress, ExecutionStage, JobProgressSnapshot, SnapshotStep, StageProgress,
};
use crate::status::{is_terminal_status, reports_failure, JobStatus, Status};
use crate::submission::{
    submission_notified, submission_persisted, submission_planned, submission_revived,
    submission_saved, submission_started, submission_unqueued, Persisting, Reviving,
    SubmitRequest, SubmitStep,
};
use crate::tasks::{
    grouped_by_job, of_job, ExecutorMetadata, JobUpdates, MultiTaskDefinition, TaskDescription,
    TaskStatus,
};
use crate::updates::{
    cancelled_by, graph_reset, graphs_of, resets_on, updates_applied, updates_on,
    ExecutorLostStep, GraphReset, TaskStatusUpdateResult, UpdateStatusesStep, UpdateSummary,
};

verus! {

/// One job's share of the manager, while operations on the job interleave.
pub struct World {
    /// The manager.
    pub manager: Manager,
    /// The job's control.
    pub control: Control,
    /// The number of submissions that have passed the control and whose
    /// graph is neither published nor given up.
    pub publishers: nat,
    /// The number of submissions that have passed the control and have not
    /// returned.
    pub guards: nat,
}

/// One critical section of an operation on a job.
pub enum Event {
    /// A submission comes to the control with its graph planned.
    BeginPublication,
    /// A submission was refused by the persistent job state.
    WithdrawPublication,
    /// A submission comes to publish its graph, which reports a state.
    Publish(GraphId, Option<Status>),
    /// A submission is dropped on its way.
    DropPublication,
    /// A submission that passed the control returns.
    FinishPublication,
    /// The job is aborted.
    Abort(Seq<char>),
    /// The job is failed as one that was never scheduled.
    FailUnscheduled(Seq<char>),
    /// The job is completed.
    Succeed,
    /// The manager changes in what it keeps of other jobs, in the plans that are
    /// cached, or in its map of controls.
    Elsewhere(Manager),
}

/// Whether a change of the manager leaves a job alone: its graph and its cached
/// status. The plans that are cached for it may change.
pub open spec fn keeps_job(before: Manager, after: Manager, job_id: Seq<char>) -> bool {
    &&& after.graph_of(job_id) == before.graph_of(job_id)
    &&& before.active.contains_key(job_id) ==> after.active[job_id].status
        == before.active[job_id].status
}

impl World {
    /// A job that has just been queued.
    pub open spec fn queued(manager: Manager) -> World {
        World { manager, control: Control::fresh(), publishers: 0, guards: 0 }
    }

    /// Whether an event can happen: a submission comes to publish or to
    /// withdraw only if it passed the control, and returns after that.
    pub open spec fn allows(self, event: Event) -> bool {
        match event {
            Event::WithdrawPublication => self.publishers > 0,
            Event::Publish(_, _) => self.publishers > 0,
            Event::DropPublication => self.publishers > 0,
            Event::FinishPublication => self.guards > self.publishers,
            _ => true,
        }
    }

    /// The world after an event on `job_id`.
    pub open spec fn step(self, job_id: Seq<char>, event: Event) -> World {
        match event {
            Event::BeginPublication => if self.control.phase is Queued {
                World {
                    control: self.control.begin_publication(),
                    publishers: self.publishers + 1,
                    guards: self.guards + 1,
                    ..self
                }
            } else {
                self
            },
            Event::WithdrawPublication => World {
                control: self.control.withdraw_publication(),
                publishers: (self.publishers - 1) as nat,
                ..self
            },
            Event::Publish(graph, status) => World {
                manager: if self.control.phase is Publishing {
                    self.manager.with_active(job_id, JobInfo::published(graph, status))
                } else {
                    self.manager
                },
                control: self.control.publish(),
                publishers: (self.publishers - 1) as nat,
                ..self
            },
            Event::DropPublication => World {
                publishers: (self.publishers - 1) as nat,
                ..self
            },
            Event::FinishPublication => World {
                control: self.control.finish_publication(),
                guards: (self.guards - 1) as nat,
                ..self
            },
            Event::Abort(reason) => World {
                manager: self.manager.without_active(job_id),
                control: self.control.tombstone(reason),
                ..self
            },
            Event::FailUnscheduled(reason) => World {
                control: self.control.tombstone(reason),
                ..self
            },
            Event::Succeed => World { manager: self.manager.without_active(job_id), ..self },
            Event::Elsewhere(manager) => if keeps_job(self.manager, manager, job_id) {
                World { manager, ..self }
            } else {
                self
            },
        }
    }

    /// The world after some events on `job_id`.
    pub open spec fn run(self, job_id: Seq<char>, events: Seq<Event>) -> World
        decreases events.len(),
    {
        if events.len() == 0 {
            self
        } else {
            self.run(job_id, events.drop_last()).step(job_id, events.last())
        }
    }

    /// Whether each of some events can happen after the ones before it.
    pub open spec fn allows_all(self, job_id: Seq<char>, events: Seq<Event>) -> bool
        decreases events.len(),
    {
        events.len() == 0 || {
            &&& self.allows_all(job_id, events.drop_last())
            &&& self.run(job_id, events.drop_last()).allows(events.last())
        }
    }

    /// Whether no submission passes the control before the one that passed it
    /// earlier has returned.
    pub open spec fn one_at_a_time(self, job_id: Seq<char>, events: Seq<Event>) -> bool
        decreases events.len(),
    {
        events.len() == 0 || {
            &&& self.one_at_a_time(job_id, events.drop_last())
            &&& events.last() is BeginPublication ==> self.run(
                job_id,
                events.drop_last(),
            ).guards == 0
        }
    }
}

/// A tombstone is final: no later event changes the phase of an aborted job or
/// the reason that it was aborted for.
pub proof fn law_tombstone_is_final(world: World, job_id: Seq<char>, events: Seq<Event>)
    requires
        world.control.is_aborted(),
    ensures
        world.run(job_id, events).control.phase == world.control.phase,
    decreases events.len(),
{
    if events.len() > 0 {
        law_tombstone_is_final(world, job_id, events.drop_last());
    }
}

/// Running events one after the other.
proof fn lemma_run_add(world: World, job_id: Seq<char>, first: Seq<Event>, later: Seq<Event>)
    ensures
        world.run(job_id, first + later) == world.run(job_id, first).run(job_id, later),
    decreases later.len(),
{
    if later.len() == 0 {
        assert(first + later =~= first);
    } else {
        lemma_run_add(world, job_id, first, later.drop_last());
        assert((first + later).drop_last() =~= first + later.drop_last());
    }
}

/// A job without a cached graph whose control has a tombstone gets no cached
/// graph any more.
proof fn lemma_stays_inactive(world: World, job_id: Seq<char>, events: Seq<Event>)
    requires
        world.control.is_aborted(),
        !world.manager.active.contains_key(job_id),
    ensures
        !world.run(job_id, events).manager.active.contains_key(job_id),
    decreases events.len(),
{
    if events.len() > 0 {
        lemma_stays_inactive(world, job_id, events.drop_last());
        law_tombstone_is_final(world, job_id, events.drop_last());
    }
}

/// Cancellation is linearizable with publication: wherever the cancellation of
/// a job falls among the other events on it, and whatever happens to other jobs
/// in between, the job ends aborted and outside the active cache. A publication that came before is undone, one that comes
/// later is refused.
pub proof fn law_aborted_job_is_not_active(
    world: World,
    job_id: Seq<char>,
    before: Seq<Event>,
    reason: Seq<char>,
    after: Seq<Event>,
)
    ensures
        ({
            let end = world.run(job_id, before + seq![Event::Abort(reason)] + after);
            &&& end.control.is_aborted()
            &&& !end.manager.active.contains_key(job_id)
        }),
{
    let middle = before + seq![Event::Abort(reason)];
    assert(middle.drop_last() =~= before);
    lemma_run_add(world, job_id, middle, after);
    law_tombstone_is_final(world.run(job_id, middle), job_id, after);
    lemma_stays_inactive(world.run(job_id, middle), job_id, after);
}

/// The first tombstone stays: aborting a job again keeps the first reason.
pub proof fn law_first_reason_stays(control: Control, first: Seq<char>, second: Seq<char>)
    ensures
        control.tombstone(first).tombstone(second) == control.tombstone(first),
{
}

/// How many publishers there can be in each phase.
spec fn publishers_fit(world: World) -> bool {
    &&& world.publishers <= world.guards
    &&& world.publishers <= 1
    &&& world.publishers == 1 ==> world.control.phase is Publishing || world.control.is_aborted()
}

/// At most one submission of a job is past its control at any time, and it is
/// there only while the job is being published or has been aborted since.
pub proof fn law_one_publisher(manager: Manager, job_id: Seq<char>, events: Seq<Event>)
    requires
        World::queued(manager).allows_all(job_id, events),
    ensures
        ({
            let end = World::queued(manager).run(job_id, events);
            &&& end.publishers <= 1
            &&& end.publishers == 1 ==> end.control.phase is Publishing || end.control.is_aborted()
        }),
{
    lemma_publishers_fit(manager, job_id, events);
}

proof fn lemma_publishers_fit(manager: Manager, job_id: Seq<char>, events: Seq<Event>)
    requires
        World::queued(manager).allows_all(job_id, events),
    ensures
        publishers_fit(World::queued(manager).run(job_id, events)),
    decreases events.len(),
{
    if events.len() > 0 {
        lemma_publishers_fit(manager, job_id, events.drop_last());
    }
}

/// While submissions of a job pass its control one at a time, the flag on
/// the control tells the end of a publication: it is never set while a submission
/// that passed has not returned. So a cancellation that finds a job being
/// published and waits for the flag waits for that submission.
pub proof fn law_flag_tells_publication_end(
    manager: Manager,
    job_id: Seq<char>,
    events: Seq<Event>,
)
    requires
        World::queued(manager).allows_all(job_id, events),
        World::queued(manager).one_at_a_time(job_id, events),
    ensures
        ({
            let end = World::queued(manager).run(job_id, events);
            end.guards > 0 ==> end.guards == 1 && !end.control.publication_finished
        }),
    decreases events.len(),
{
    if events.len() > 0 {
        law_flag_tells_publication_end(manager, job_id, events.drop_last());
    }
}

/// Once the submission that was past the control of an aborted job has returned,
/// the flag on the control stays set, so that a cancellation which waits for it
/// does not miss it.
pub proof fn law_flag_of_aborted_job_stays(world: World, job_id: Seq<char>, events: Seq<Event>)
    requires
        world.control.is_aborted(),
        world.control.publication_finished,
    ensures
        world.run(job_id, events).control.publication_finished,
    decreases events.len(),
{
    if events.len() > 0 {
        law_flag_of_aborted_job_stays(world, job_id, events.drop_last());
        law_tombstone_is_final(world, job_id, events.drop_last());
    }
}

/// A job that the persistent job state refused can be submitted again: its
/// control is as it was when the job was queued.
pub proof fn law_refused_job_can_be_submitted_again(control: Control)
    requires
        control.phase is Queued,
    ensures
        ({
            let again = control.begin_publication().withdraw_publication();
            &&& again.phase is Queued
            &&& again.begin_publication() == control.begin_publication()
        }),
{
}

/// A submission that finds a tombstone on the control of its job never publishes,
/// wherever on its way it finds it: it goes on to fail the job for the reason
/// on the tombstone, and the manager does not change.
pub proof fn law_aborted_submission_is_refused<E>(
    request: SubmitRequest,
    manager: Manager,
    control: Control,
    reason: Seq<char>,
    graph: GraphId,
    status: JobStatus,
    plan: Result<GraphId, BallistaError<E>>,
    outcome: Result<(), BallistaError<E>>,
    after: (Manager, Control),
    step: SubmitStep<E>,
)
    requires
        control.phase == (Phase::Aborted { reason }),
    ensures
        submission_started(manager, request, control, step) ==> refuses(reason, step),
        plan is Ok && submission_planned(request, control, plan, after.1, step) ==> refuses(
            reason,
            step,
        ) && after.1 == control,
        submission_persisted(Persisting { request, graph }, control, outcome, after.1, step)
            ==> refuses(reason, step) && after.1 == control,
        submission_revived(
            Reviving { request, graph },
            (manager, control),
            status,
            after,
            step,
        ) ==> refuses(reason, step) && after == (manager, control),
{
}

/// Whether a submission goes on to fail an aborted job.
pub open spec fn refuses<E>(reason: Seq<char>, step: SubmitStep<E>) -> bool {
    match step {
        SubmitStep::Unqueue(next) => next.reason@ == reason,
        SubmitStep::Notify(next) => next.reason@ == reason,
        SubmitStep::FailGraph(next) => next.reason@ == reason,
        _ => false,
    }
}

/// A submission that was refused because of a tombstone ends with an error: it
/// is cancelled, unless the failed graph could not be saved, and then that is
/// the error.
pub proof fn law_refused_submission_fails<E>(
    step: SubmitStep<E>,
    reason: Seq<char>,
    outcome: Result<(), BallistaError<E>>,
)
    requires
        refuses(reason, step),
    ensures
        step matches SubmitStep::Unqueue(at) ==> refuses(reason, submission_unqueued::<E>(at)),
        submission_notified::<E>() == SubmitStep::<E>::Finished(Err(BallistaError::Cancelled)),
        submission_saved(outcome) matches SubmitStep::Finished(Err(error)) && match outcome {
            Ok(_) => error is Cancelled,
            Err(given) => error == given,
        },
{
}

/// What the operations on a job do to its control and to the active cache is what
/// the events of a [`World`] do.
pub proof fn law_operations_are_events<E, R>(
    world: World,
    request: SubmitRequest,
    plan: Result<GraphId, BallistaError<E>>,
    outcome: Result<(), BallistaError<E>>,
    graph: GraphId,
    status: JobStatus,
    reason: Seq<char>,
    lifecycle: LifecycleId,
    after: (Manager, Control),
    submit_step: SubmitStep<E>,
    abort_step: AbortStep<E, R>,
    failing: FailingUnscheduled,
    succeed_step: SucceedStep<E>,
)
    ensures
        plan is Ok && submission_planned(request, world.control, plan, after.1, submit_step) ==> {
            let end = world.step(request.job_id@, Event::BeginPublication);
            &&& after.1 == end.control
            &&& submit_step is Persist <==> end.publishers == world.publishers + 1
        },
        outcome is Err && submission_persisted(
            Persisting { request, graph },
            world.control,
            outcome,
            after.1,
            submit_step,
        ) ==> after.1 == world.step(request.job_id@, Event::WithdrawPublication).control,
        outcome is Ok && submission_persisted(
            Persisting { request, graph },
            world.control,
            outcome,
            after.1,
            submit_step,
        ) ==> after.1 == world.control,
        submission_revived(
            Reviving { request, graph },
            (world.manager, world.control),
            status,
            after,
            submit_step,
        ) ==> {
            let end = world.step(request.job_id@, Event::Publish(graph, status.status));
            after == (end.manager, end.control)
        },
        abort_started(
            (world.manager, world.control),
            request.job_id@,
            reason,
            after,
            abort_step,
        ) ==> {
            let end = world.step(request.job_id@, Event::Abort(reason));
            after == (end.manager, end.control)
        },
        world.control.finish_publication() == world.step(
            request.job_id@,
            Event::FinishPublication,
        ).control,
        unscheduled_failure_started(
            world.control,
            lifecycle,
            request.job_id@,
            reason,
            after.1,
            failing,
        ) ==> {
            let end = world.step(request.job_id@, Event::FailUnscheduled(reason));
            (world.manager, after.1) == (end.manager, end.control)
        },
        completion_started(world.manager, request.job_id@, after.0, succeed_step) ==> {
            let end = world.step(request.job_id@, Event::Succeed);
            (after.0, world.control) == (end.manager, end.control)
        },
{
}

/// What is done to other jobs, to the map of controls and to cached plans, those
/// of the job itself among them, is an event elsewhere.
pub proof fn law_other_operations_are_elsewhere<E>(
    world: World,
    job_id: Seq<char>,
    other: Seq<char>,
    info: JobInfo,
    lifecycle: LifecycleId,
    stage_id: usize,
    encodes: spec_fn(Result<Vec<u8>, BallistaError<E>>) -> bool,
    encoded: Result<Vec<u8>, BallistaError<E>>,
    after: Manager,
)
    requires
        ({
            ||| other != job_id && after == world.manager.with_active(other, info)
            ||| other != job_id && after == world.manager.without_active(other)
            ||| after == world.manager.with_control(other, lifecycle)
            ||| after == world.manager.without_control(other)
            ||| active_plan_encoded(world.manager, after, other, stage_id, encodes, encoded)
        }),
    ensures
        world.step(job_id, Event::Elsewhere(after)) == (World { manager: after, ..world }),
{
}

/// The graph that a submission publishes is the one that was planned for it and
/// that the persistent job state has accepted.
pub proof fn law_published_graph_is_the_planned_one<E>(
    request: SubmitRequest,
    graph: GraphId,
    controls: Seq<Control>,
    persisting: Persisting,
    reviving: Reviving,
    status: JobStatus,
    before: (Manager, Control),
    after: (Manager, Control),
    step: SubmitStep<E>,
)
    requires
        controls.len() == 4,
        submission_planned(
            request,
            controls[0],
            Ok::<GraphId, BallistaError<E>>(graph),
            controls[1],
            SubmitStep::<E>::Persist(persisting),
        ),
        submission_persisted(
            persisting,
            controls[2],
            Ok::<(), BallistaError<E>>(()),
            controls[3],
            SubmitStep::<E>::Revive(reviving),
        ),
        submission_revived(reviving, before, status, after, step),
        step == SubmitStep::<E>::Finished(Ok(())),
    ensures
        persisting.graph == graph,
        reviving.graph == graph,
        after.0.graph_of(request.job_id@) == Some(graph),
        after.0.active[request.job_id@].status == status.status,
{
}

/// Whether `steps` are the steps of aborting a job while `events` come of them.
pub open spec fn abort_runs<E, R>(
    steps: Seq<AbortStep<E, R>>,
    events: Seq<AbortEvent<E, R>>,
) -> bool {
    &&& steps.len() == events.len() + 1
    &&& forall|i: int|
        0 <= i < events.len() ==> abort_goes_on(steps[i], #[trigger] events[i], steps[i + 1])
}

/// A cancellation that lost the queued job to its publisher is acknowledged
/// only when the job is durably failed: it succeeds, with nothing to cancel,
/// only after the publication was seen to have finished and the persistent job
/// state then reported the job as failed.
pub proof fn law_acknowledged_cancellation_is_durable<E, R>(
    steps: Seq<AbortStep<E, R>>,
    events: Seq<AbortEvent<E, R>>,
)
    requires
        abort_runs(steps, events),
        steps[0] is CheckPublication,
        steps.last() matches AbortStep::Finished(outcome) && outcome is Ok,
    ensures
        nothing_to_cancel(steps.last()),
        events.len() >= 2,
        events[events.len() - 2] == AbortEvent::<E, R>::PublicationRead(true),
        events.last() matches AbortEvent::StatusRead(Ok(status)) && reports_failure(status),
{
    lemma_waiting_abort(steps, events, steps.len() - 1);
    let last = events.len() - 1;
    assert(abort_goes_on(steps[last], events[last], steps[last + 1]));
    lemma_waiting_abort(steps, events, last);
    assert(abort_goes_on(steps[last - 1], events[last - 1], steps[last]));
    lemma_waiting_abort(steps, events, last - 1);
}

/// A cancellation that waits for the publisher is waiting, reading the status
/// or at its end.
proof fn lemma_waiting_abort<E, R>(
    steps: Seq<AbortStep<E, R>>,
    events: Seq<AbortEvent<E, R>>,
    at: int,
)
    requires
        abort_runs(steps, events),
        steps[0] is CheckPublication,
        0 <= at < steps.len(),
    ensures
        steps[at] is CheckPublication || steps[at] is AwaitPublication || steps[at] is ReadStatus
            || steps[at] is Finished,
        steps[at] is ReadStatus ==> at > 0,
    decreases at,
{
    if at > 0 {
        lemma_waiting_abort(steps, events, at - 1);
        assert(abort_goes_on(steps[at - 1], events[at - 1], steps[at]));
    }
}

/// A submission succeeds only by publishing: then its graph is the cached one
/// of its job, and the job is active.
pub proof fn law_success_is_publication<E>(
    request: SubmitRequest,
    before: (Manager, Control),
    graph: GraphId,
    status: JobStatus,
    plan: Result<GraphId, BallistaError<E>>,
    outcome: Result<(), BallistaError<E>>,
    after: (Manager, Control),
    step: SubmitStep<E>,
)
    requires
        step == SubmitStep::<E>::Finished(Ok(())),
    ensures
        !submission_started(before.0, request, before.1, step),
        !submission_planned(request, before.1, plan, after.1, step),
        !submission_persisted(Persisting { request, graph }, before.1, outcome, after.1, step),
        submission_revived(Reviving { request, graph }, before, status, after, step) ==> {
            &&& before.1.phase is Publishing
            &&& after.1.phase is Active
            &&& after.0.graph_of(request.job_id@) == Some(graph)
        },
{
}

/// The active cache gives back what was put in it: a published graph is the one
/// that is found until the job is taken out, and then none is. Other jobs are
/// not concerned.
pub proof fn law_cache_gives_back(
    manager: Manager,
    job_id: Seq<char>,
    graph: GraphId,
    status: Option<Status>,
    other: Seq<char>,
)
    requires
        other != job_id,
    ensures
        ({
            let published = manager.with_active(job_id, JobInfo::published(graph, status));
            &&& published.graph_of(job_id) == Some(graph)
            &&& published.without_active(job_id).graph_of(job_id) is None
            &&& published.graph_of(other) == manager.graph_of(other)
            &&& published.without_active(job_id).graph_of(other) == manager.graph_of(other)
            &&& published.controls == manager.controls
        }),
{
}

/// Aborting a job again finds nothing to fail in the active cache.
pub proof fn law_second_abort_finds_no_graph<E, R>(
    before: (Manager, Control),
    job_id: Seq<char>,
    first: Seq<char>,
    second: Seq<char>,
    between: (Manager, Control),
    after: (Manager, Control),
    first_step: AbortStep<E, R>,
    second_step: AbortStep<E, R>,
)
    requires
        abort_started(before, job_id, first, between, first_step),
        abort_started(between, job_id, second, after, second_step),
    ensures
        second_step matches AbortStep::Unqueue(next) && !next.was_publishing,
        after.0 == between.0,
        after.1 == between.1,
{
    assert(after.0.active =~= between.0.active);
}

/// Queueing a job keeps the control that it already has, and so the tombstone of
/// a cancellation that came early.
pub proof fn law_queueing_keeps_control(
    manager: Manager,
    job_id: Seq<char>,
    early: LifecycleId,
    fresh: LifecycleId,
)
    ensures
        ({
            let cancelled = manager.with_control(job_id, early);
            &&& cancelled.with_control(job_id, fresh) == cancelled
            &&& cancelled.with_control(job_id, fresh).control_of(job_id) == cancelled.control_of(job_id)
        }),
{
}

/// The plan of a stage is encoded once: after one request for it succeeded,
/// every further request gives the same bytes, whatever the encoder would give,
/// and changes nothing.
pub proof fn law_plan_is_encoded_once<E>(
    before: JobInfo,
    between: JobInfo,
    after: JobInfo,
    stage_id: usize,
    encodes: spec_fn(Result<Vec<u8>, BallistaError<E>>) -> bool,
    encodes_later: spec_fn(Result<Vec<u8>, BallistaError<E>>) -> bool,
    first: Result<Vec<u8>, BallistaError<E>>,
    second: Result<Vec<u8>, BallistaError<E>>,
)
    requires
        stage_plan_encoded(before, between, stage_id, encodes, first),
        stage_plan_encoded(between, after, stage_id, encodes_later, second),
        first is Ok,
    ensures
        second is Ok,
        second->Ok_0@ == first->Ok_0@,
        after == between,
{
}

/// The cache of running jobs holds only active jobs, and none that has
/// succeeded or failed.
pub proof fn law_running_jobs_are_active(active: Map<Seq<char>, JobInfo>, job_id: Seq<char>)
    requires
        running_jobs(active).contains_key(job_id),
    ensures
        active.contains_key(job_id),
        running_jobs(active)[job_id] == active[job_id],
        !is_terminal_status(active[job_id].status),
{
}

/// A list of the active jobs is as long as there are active jobs, and so is the
/// list of their graphs.
pub proof fn law_every_active_job_is_listed_once(
    active: Map<Seq<char>, JobInfo>,
    entries: Seq<(String, JobInfoCache)>,
)
    requires
        lists_active(active, entries),
    ensures
        active.dom().finite(),
        entries.len() == active.len(),
        graphs_of(entries).len() == active.len(),
{
    let keys = entries.map_values(|entry: (String, JobInfoCache)| entry.0@);
    assert forall|i: int, j: int| 0 <= i < keys.len() && 0 <= j < keys.len() && i != j implies keys[i]
        != keys[j] by {
        assert(keys[i] == entries[i].0@ && keys[j] == entries[j].0@);
    }
    assert forall|job_id: Seq<char>| active.contains_key(job_id) == keys.to_set().contains(
        job_id,
    ) by {
        if active.contains_key(job_id) {
            let i = choose|i: int| 0 <= i < entries.len() && #[trigger] entries[i].0@ == job_id;
            assert(keys[i] == job_id);
        }
        if keys.contains(job_id) {
            let i = choose|i: int| 0 <= i < keys.len() && keys[i] == job_id;
            assert(active.contains_key(entries[i].0@));
        }
    }
    assert(active.dom() =~= keys.to_set());
    keys.unique_seq_to_set();
}

/// Every stage that was to be launched is accounted for: it has either one
/// definition or one error, so that a stage which cannot be prepared does not
/// hold up the others.
pub proof fn law_every_stage_is_accounted_for<
    E,
    P,
    F: Fn(&P) -> Result<Vec<u8>, BallistaError<E>>,
    C: Fn() -> u64,
>(
    states: Seq<Manager>,
    tasks: Seq<Vec<TaskDescription<P>>>,
    encode: F,
    clock: C,
    outcomes: Seq<Result<Vec<MultiTaskDefinition>, BallistaError<E>>>,
)
    requires
        stages_prepared(states, tasks, encode, clock, outcomes),
    ensures
        definitions_of(outcomes).len() + errors_of(outcomes).len() == tasks.len(),
{
    assert forall|i: int| 0 <= i < outcomes.len() implies (#[trigger] outcomes[i] matches Ok(
        definitions,
    ) ==> definitions.len() == 1) by {}
    lemma_accounted(outcomes);
}

proof fn lemma_accounted<E>(
    outcomes: Seq<Result<Vec<MultiTaskDefinition>, BallistaError<E>>>,
)
    requires
        forall|i: int|
            0 <= i < outcomes.len() ==> (#[trigger] outcomes[i] matches Ok(definitions)
                ==> definitions.len() == 1),
    ensures
        definitions_of(outcomes).len() + errors_of(outcomes).len() == outcomes.len(),
    decreases outcomes.len(),
{
    if outcomes.len() > 0 {
        assert forall|i: int| 0 <= i < outcomes.drop_last().len() implies (
        #[trigger] outcomes.drop_last()[i] matches Ok(definitions) ==> definitions.len()
            == 1) by {
            assert(outcomes.drop_last()[i] == outcomes[i]);
        }
        lemma_accounted(outcomes.drop_last());
        assert(outcomes[outcomes.len() - 1] == outcomes.last());
    }
}

/// A progress snapshot covers the active jobs: it has one element for each of
/// them and none for any other job, with the terminal flag from the job's cached
/// status and the rows of what was read of the job's graph.
pub proof fn law_snapshot_covers_active_jobs<T>(
    active: Map<Seq<char>, JobInfo>,
    entries: Seq<(String, JobInfoCache)>,
    readings: Seq<Option<Vec<(usize, ExecutionStage<T>)>>>,
    steps: Seq<SnapshotStep>,
)
    requires
        lists_active(active, entries),
        snapshots_run(entries, readings, steps),
    ensures
        steps.last() matches SnapshotStep::Finished(snapshots) && {
            &&& snapshots.len() == active.len()
            &&& forall|i: int|
                0 <= i < snapshots.len() ==> {
                    &&& active.contains_key((#[trigger] snapshots[i]).job_id@)
                    &&& reports(
                        snapshots[i].job_id@,
                        active[snapshots[i].job_id@].status,
                        readings[i],
                        snapshots[i],
                    )
                }
            &&& forall|i: int, j: int|
                0 <= i < j < snapshots.len() ==> (#[trigger] snapshots[i]).job_id@ != (
                #[trigger] snapshots[j]).job_id@
            &&& forall|job_id: Seq<char>| #[trigger]
                active.contains_key(job_id) ==> exists|i: int|
                    0 <= i < snapshots.len() && (#[trigger] snapshots[i]).job_id@ == job_id
        },
        forall|i: int|
            0 <= i < entries.len() ==> (#[trigger] steps[i] matches SnapshotStep::ReadGraph(at)
                && active.contains_key(at.job_id@) && at.graph
                == active[at.job_id@].execution_graph),
{
    let n = entries.len() as int;
    law_every_active_job_is_listed_once(active, entries);
    assert forall|i: int| 0 <= i < n implies (#[trigger] steps[i] matches SnapshotStep::ReadGraph(at)
        && active.contains_key(at.job_id@) && at.graph == active[at.job_id@].execution_graph) by {
        let captured = lemma_snapshot_at(entries, readings, steps, i);
        assert(entries.take(n - i).last() == entries[n - 1 - i]);
        assert(active.contains_key(entries[n - 1 - i].0@));
    }
    let snapshots = lemma_snapshot_at(entries, readings, steps, n);
    assert forall|i: int| 0 <= i < n implies {
        &&& active.contains_key((#[trigger] snapshots[i]).job_id@)
        &&& reports(
            snapshots[i].job_id@,
            active[snapshots[i].job_id@].status,
            readings[i],
            snapshots[i],
        )
    } by {
        assert(active.contains_key(entries[n - 1 - i].0@));
    }
    assert forall|i: int, j: int| 0 <= i < j < n implies (#[trigger] snapshots[i]).job_id@ != (
    #[trigger] snapshots[j]).job_id@ by {
        assert(entries[n - 1 - j].0@ != entries[n - 1 - i].0@);
    }
    assert forall|job_id: Seq<char>| #[trigger] active.contains_key(job_id) implies exists|i: int|
        0 <= i < n && (#[trigger] snapshots[i]).job_id@ == job_id by {
        let k = choose|k: int| 0 <= k < entries.len() && #[trigger] entries[k].0@ == job_id;
        assert(snapshots[n - 1 - k].job_id@ == entries[k].0@);
    }
}

/// Whether `steps` are the steps of a progress snapshot of `entries` in which
/// `readings` are read.
pub open spec fn snapshots_run<T>(
    entries: Seq<(String, JobInfoCache)>,
    readings: Seq<Option<Vec<(usize, ExecutionStage<T>)>>>,
    steps: Seq<SnapshotStep>,
) -> bool {
    &&& readings.len() == entries.len()
    &&& steps.len() == entries.len() + 1
    &&& snapshots_on(entries, Seq::empty(), steps[0])
    &&& forall|i: int|
        0 <= i < entries.len() ==> (#[trigger] steps[i] matches SnapshotStep::ReadGraph(at)
            ==> progress_read(at, readings[i], steps[i + 1]))
}

/// Where a progress snapshot stands after some graphs were read, with what it
/// has captured.
proof fn lemma_snapshot_at<T>(
    entries: Seq<(String, JobInfoCache)>,
    readings: Seq<Option<Vec<(usize, ExecutionStage<T>)>>>,
    steps: Seq<SnapshotStep>,
    at: int,
) -> (captured: Seq<JobProgressSnapshot>)
    requires
        snapshots_run(entries, readings, steps),
        0 <= at <= entries.len(),
    ensures
        snapshots_on(entries.take(entries.len() - at), captured, steps[at]),
        captured.len() == at,
        forall|i: int|
            0 <= i < at ==> reports(
                entries[entries.len() - 1 - i].0@,
                entries[entries.len() - 1 - i].1@.status,
                readings[i],
                #[trigger] captured[i],
            ),
    decreases at,
{
    if at == 0 {
        assert(entries.take(entries.len() as int) =~= entries);
        Seq::empty()
    } else {
        let earlier = lemma_snapshot_at(entries, readings, steps, at - 1);
        let left = entries.take(entries.len() - at + 1);
        assert(left.last() == entries[entries.len() - at]);
        assert(left.drop_last() =~= entries.take(entries.len() - at));
        let reading = steps[at - 1]->ReadGraph_0;
        assert(progress_read(reading, readings[at - 1], steps[at]));
        let snapshot = choose|snapshot: JobProgressSnapshot| #[trigger]
            reports(reading.job_id@, reading.status, readings[at - 1], snapshot) && snapshots_on(
                reading.remaining@,
                reading.captured@.push(snapshot),
                steps[at],
            );
        earlier.push(snapshot)
    }
}

/// The number of pending tasks is the sum over the active jobs, each counted
/// once, and those whose graph could not be read for nothing.
pub proof fn law_pending_tasks_cover_active_jobs(
    active: Map<Seq<char>, JobInfo>,
    entries: Seq<(String, JobInfoCache)>,
    counts: Seq<Option<usize>>,
    steps: Seq<PendingTasksStep>,
)
    requires
        lists_active(active, entries),
        counts.len() == entries.len(),
        steps.len() == entries.len() + 1,
        counts_on(entries, 0, steps[0]),
        forall|i: int|
            0 <= i < entries.len() ==> (#[trigger] steps[i] matches PendingTasksStep::CountTasks(at)
                ==> counts_on(at.remaining@, at.total as nat + readable(counts[i]), steps[i + 1])),
    ensures
        counts.len() == active.len(),
        steps.last() matches PendingTasksStep::Finished(total) && total == sum_of_readable(counts),
        forall|i: int|
            0 <= i < entries.len() ==> (#[trigger] steps[i] matches PendingTasksStep::CountTasks(at)
                && at.job_id == entries[entries.len() - 1 - i].0 && active.contains_key(at.job_id@)
                && at.graph == active[at.job_id@].execution_graph),
{
    let n = entries.len() as int;
    law_every_active_job_is_listed_once(active, entries);
    assert forall|i: int| 0 <= i < n implies (
    #[trigger] steps[i] matches PendingTasksStep::CountTasks(at) && at.job_id == entries[n - 1
        - i].0 && active.contains_key(at.job_id@) && at.graph
        == active[at.job_id@].execution_graph) by {
        lemma_count_at(entries, counts, steps, i);
        assert(active.contains_key(entries[n - 1 - i].0@));
    }
    lemma_count_at(entries, counts, steps, n);
    assert(counts.take(n) =~= counts);
}

/// Where the counting of pending tasks stands after some graphs were counted.
proof fn lemma_count_at(
    entries: Seq<(String, JobInfoCache)>,
    counts: Seq<Option<usize>>,
    steps: Seq<PendingTasksStep>,
    at: int,
)
    requires
        counts.len() == entries.len(),
        steps.len() == entries.len() + 1,
        counts_on(entries, 0, steps[0]),
        forall|i: int|
            0 <= i < entries.len() ==> (#[trigger] steps[i] matches PendingTasksStep::CountTasks(at)
                ==> counts_on(at.remaining@, at.total as nat + readable(counts[i]), steps[i + 1])),
        0 <= at <= entries.len(),
    ensures
        counts_on(
            entries.take(entries.len() - at),
            sum_of_readable(counts.take(at)),
            steps[at],
        ),
    decreases at,
{
    if at == 0 {
        assert(entries.take(entries.len() as int) =~= entries);
    } else {
        lemma_count_at(entries, counts, steps, at - 1);
        assert(steps[at - 1] is CountTasks);
        assert(entries.take(entries.len() - at + 1).drop_last() =~= entries.take(
            entries.len() - at,
        ));
        assert(counts.take(at).drop_last() =~= counts.take(at - 1));
    }
}

/// The listing that a step waits with.
pub open spec fn listing_at<E>(step: ListingStep<E>) -> Option<Listing> {
    match step {
        ListingStep::ReadActive(_, listing) => Some(listing),
        ListingStep::ReadStored(listing) => Some(listing),
        ListingStep::Finished(_) => None,
    }
}

/// A listing whose graphs are all found has one overview for each job that was
/// asked for, made from the graph that was read for it; and it asks for each
/// job's graph where the manager of the moment has it.
pub proof fn law_listing_is_complete<E>(
    managers: Seq<Manager>,
    job_ids: Seq<String>,
    graphs: Seq<ExecutionGraph>,
    steps: Seq<ListingStep<E>>,
)
    requires
        managers.len() == job_ids.len() + 1,
        graphs.len() == job_ids.len(),
        steps.len() == job_ids.len() + 1,
        lists_on(managers[0], job_ids, Seq::empty(), steps[0]),
        forall|i: int|
            0 <= i < graphs.len() ==> (listing_at(#[trigger] steps[i]) matches Some(listing)
                ==> listing_read(
                managers[i + 1],
                listing,
                Ok::<Option<ExecutionGraph>, BallistaError<E>>(Some(graphs[i])),
                steps[i + 1],
            )),
    ensures
        steps.last() matches ListingStep::Finished(Ok(overviews)) && overviews@ == graphs.map_values(
            |graph: ExecutionGraph| overview_of(graph),
        ),
        forall|i: int|
            0 <= i < job_ids.len() ==> (listing_at(#[trigger] steps[i]) matches Some(listing)
                && listing.job_id == job_ids[job_ids.len() - 1 - i]),
{
    let n = job_ids.len() as int;
    assert forall|i: int| 0 <= i < n implies (listing_at(#[trigger] steps[i]) matches Some(listing)
        && listing.job_id == job_ids[n - 1 - i]) by {
        lemma_listing_at(managers, job_ids, graphs, steps, i);
    }
    lemma_listing_at(managers, job_ids, graphs, steps, n);
    assert(graphs.take(n) =~= graphs);
}

/// Where a listing stands after some graphs were read.
proof fn lemma_listing_at<E>(
    managers: Seq<Manager>,
    job_ids: Seq<String>,
    graphs: Seq<ExecutionGraph>,
    steps: Seq<ListingStep<E>>,
    at: int,
)
    requires
        managers.len() == job_ids.len() + 1,
        graphs.len() == job_ids.len(),
        steps.len() == job_ids.len() + 1,
        lists_on(managers[0], job_ids, Seq::empty(), steps[0]),
        forall|i: int|
            0 <= i < graphs.len() ==> (listing_at(#[trigger] steps[i]) matches Some(listing)
                ==> listing_read(
                managers[i + 1],
                listing,
                Ok::<Option<ExecutionGraph>, BallistaError<E>>(Some(graphs[i])),
                steps[i + 1],
            )),
        0 <= at <= job_ids.len(),
    ensures
        lists_on(
            managers[at],
            job_ids.take(job_ids.len() - at),
            graphs.take(at).map_values(|graph: ExecutionGraph| overview_of(graph)),
            steps[at],
        ),
    decreases at,
{
    let overview = |graph: ExecutionGraph| overview_of(graph);
    if at == 0 {
        assert(job_ids.take(job_ids.len() as int) =~= job_ids);
        assert(graphs.take(0).map_values(overview) =~= Seq::empty());
    } else {
        lemma_listing_at(managers, job_ids, graphs, steps, at - 1);
        let left = job_ids.take(job_ids.len() - at + 1);
        assert(listing_at(steps[at - 1]) is Some);
        assert(left.drop_last() =~= job_ids.take(job_ids.len() - at));
        assert(graphs.take(at - 1).map_values(overview).push(overview_of(graphs[at - 1]))
            =~= graphs.take(at).map_values(overview));
    }
}

/// The running tasks to cancel after several graphs were reset.
pub open spec fn tasks_to_cancel<R>(resets: Seq<GraphReset<R>>) -> Seq<R>
    decreases resets.len(),
{
    if resets.len() == 0 {
        seq![]
    } else {
        tasks_to_cancel(resets.drop_last()) + cancelled_by(resets.last())
    }
}

/// When an executor was lost, every graph is asked in its turn to reset what ran
/// on that executor; if all can, the outcome is the running tasks of all graphs
/// in which stages were reset.
pub proof fn law_executor_loss_collects_tasks<E, R>(
    executor_id: Seq<char>,
    graphs: Seq<GraphId>,
    resets: Seq<GraphReset<R>>,
    steps: Seq<ExecutorLostStep<E, R>>,
)
    requires
        resets.len() == graphs.len(),
        steps.len() == graphs.len() + 1,
        resets_on(executor_id, graphs, Seq::<R>::empty(), steps[0]),
        forall|i: int|
            0 <= i < resets.len() ==> (#[trigger] steps[i] matches ExecutorLostStep::ResetGraph(at)
                ==> graph_reset(
                at,
                Ok::<GraphReset<R>, BallistaError<E>>(resets[i]),
                steps[i + 1],
            )),
    ensures
        steps.last() matches ExecutorLostStep::Finished(Ok(tasks)) && tasks@ == tasks_to_cancel(
            resets,
        ),
        forall|i: int|
            0 <= i < graphs.len() ==> (#[trigger] steps[i] matches ExecutorLostStep::ResetGraph(at)
                && at.executor_id@ == executor_id && at.graph == graphs[graphs.len() - 1 - i]),
{
    assert forall|i: int| 0 <= i < graphs.len() implies (
    #[trigger] steps[i] matches ExecutorLostStep::ResetGraph(at) && at.executor_id@ == executor_id
        && at.graph == graphs[graphs.len() - 1 - i]) by {
        lemma_loss_at(executor_id, graphs, resets, steps, i);
    }
    lemma_loss_at(executor_id, graphs, resets, steps, graphs.len() as int);
    assert(resets.take(resets.len() as int) =~= resets);
}

/// Where the handling of a lost executor stands after some graphs were reset.
proof fn lemma_loss_at<E, R>(
    executor_id: Seq<char>,
    graphs: Seq<GraphId>,
    resets: Seq<GraphReset<R>>,
    steps: Seq<ExecutorLostStep<E, R>>,
    at: int,
)
    requires
        resets.len() == graphs.len(),
        steps.len() == graphs.len() + 1,
        resets_on(executor_id, graphs, Seq::<R>::empty(), steps[0]),
        forall|i: int|
            0 <= i < resets.len() ==> (#[trigger] steps[i] matches ExecutorLostStep::ResetGraph(at)
                ==> graph_reset(
                at,
                Ok::<GraphReset<R>, BallistaError<E>>(resets[i]),
                steps[i + 1],
            )),
        0 <= at <= graphs.len(),
    ensures
        resets_on(
            executor_id,
            graphs.take(graphs.len() - at),
            tasks_to_cancel(resets.take(at)),
            steps[at],
        ),
    decreases at,
{
    if at == 0 {
        assert(graphs.take(graphs.len() as int) =~= graphs);
        assert(tasks_to_cancel(resets.take(0)) =~= Seq::<R>::empty());
    } else {
        lemma_loss_at(executor_id, graphs, resets, steps, at - 1);
        assert(steps[at - 1] is ResetGraph);
        assert(graphs.take(graphs.len() - at + 1).drop_last() =~= graphs.take(graphs.len() - at));
        assert(resets.take(at).drop_last() =~= resets.take(at - 1));
    }
}

/// Whether a round of status updates goes from one step to the next. `answer`
/// is what the updates of the step led to; a step that passes over a job has
/// none.
pub open spec fn round_goes_on<E, U, V, M>(
    manager: Manager,
    step: UpdateStatusesStep<E, U, V, M>,
    answer: TaskStatusUpdateResult<V, M>,
    next: UpdateStatusesStep<E, U, V, M>,
) -> bool {
    match step {
        UpdateStatusesStep::Apply(at) => updates_applied(
            manager,
            at.rest,
            Ok::<TaskStatusUpdateResult<V, M>, BallistaError<E>>(answer),
            next,
        ),
        UpdateStatusesStep::PassOver(at) => updates_on(
            manager,
            at.rest.executor,
            at.rest.remaining@,
            at.rest.combined@,
            next,
        ),
        UpdateStatusesStep::Finished(_) => false,
    }
}

/// Whether `steps` are the steps of a round of status updates of `groups` in
/// which no graph answers with an error. `managers` are the states of the
/// manager in between.
pub open spec fn round_runs<E, U, V, M>(
    managers: Seq<Manager>,
    executor: ExecutorMetadata,
    groups: Seq<JobUpdates<U>>,
    answers: Seq<TaskStatusUpdateResult<V, M>>,
    steps: Seq<UpdateStatusesStep<E, U, V, M>>,
) -> bool {
    &&& managers.len() == groups.len() + 1
    &&& answers.len() == groups.len()
    &&& steps.len() == groups.len() + 1
    &&& updates_on(managers[0], executor, groups, UpdateSummary::<V, M>::empty(), steps[0])
    &&& forall|i: int|
        0 <= i < groups.len() ==> round_goes_on(
            managers[i + 1],
            #[trigger] steps[i],
            answers[i],
            steps[i + 1],
        )
}

/// What the first `n` steps of a round led to: the answers of the graphs that
/// were asked, one behind the other.
pub open spec fn collected<E, U, V, M>(
    steps: Seq<UpdateStatusesStep<E, U, V, M>>,
    answers: Seq<TaskStatusUpdateResult<V, M>>,
    n: int,
) -> UpdateSummary<V, M>
    decreases n,
{
    if n <= 0 {
        UpdateSummary::empty()
    } else if steps[n - 1] is Apply {
        collected(steps, answers, n - 1).followed_by(answers[n - 1]@)
    } else {
        collected(steps, answers, n - 1)
    }
}

/// A round of status updates collects the events and the metrics of all graphs
/// that were asked, one list behind the other.
pub proof fn law_update_round_collects_results<E, U, V, M>(
    managers: Seq<Manager>,
    executor: ExecutorMetadata,
    groups: Seq<JobUpdates<U>>,
    answers: Seq<TaskStatusUpdateResult<V, M>>,
    steps: Seq<UpdateStatusesStep<E, U, V, M>>,
)
    requires
        round_runs(managers, executor, groups, answers, steps),
    ensures
        steps.last() matches UpdateStatusesStep::Finished(Ok(result)) && result@ == collected(
            steps,
            answers,
            groups.len() as int,
        ),
{
    lemma_round_at(managers, executor, groups, answers, steps, groups.len() as int);
}

/// A round of status updates takes each job's updates once: one step after the
/// other, it applies them to the graph that the job has at that moment, all of
/// them and no others, or passes them over if the job is not active then.
pub proof fn law_update_round_takes_each_job_once<E, U, V, M>(
    managers: Seq<Manager>,
    executor: ExecutorMetadata,
    statuses: Seq<TaskStatus<U>>,
    groups: Seq<JobUpdates<U>>,
    answers: Seq<TaskStatusUpdateResult<V, M>>,
    steps: Seq<UpdateStatusesStep<E, U, V, M>>,
    at: int,
)
    requires
        grouped_by_job(statuses, groups),
        round_runs(managers, executor, groups, answers, steps),
        0 <= at < groups.len(),
    ensures
        updates_at(steps[at]) == Some(groups[groups.len() - 1 - at]),
        match managers[at].graph_of(groups[groups.len() - 1 - at].job_id@) {
            Some(graph) => steps[at] matches UpdateStatusesStep::Apply(next) && next.graph == graph
                && next.executor == executor,
            None => steps[at] is PassOver,
        },
        updates_at(steps[at])->Some_0.statuses@ == statuses.filter(
            of_job(updates_at(steps[at])->Some_0.job_id@),
        ),
        forall|other: int|
            0 <= other < groups.len() && other != at ==> updates_at(
                #[trigger] steps[other],
            )->Some_0.job_id@ != updates_at(steps[at])->Some_0.job_id@,
{
    let n = groups.len();
    lemma_round_at(managers, executor, groups, answers, steps, at);
    assert(groups.take(n - at).last() == groups[n - 1 - at]);
    assert forall|other: int| 0 <= other < groups.len() && other != at implies updates_at(
        #[trigger] steps[other],
    )->Some_0.job_id@ != updates_at(steps[at])->Some_0.job_id@ by {
        lemma_round_at(managers, executor, groups, answers, steps, other);
        assert(groups.take(n - other).last() == groups[n - 1 - other]);
        if other < at {
            assert(groups[n - 1 - at].job_id@ != groups[n - 1 - other].job_id@);
        } else {
            assert(groups[n - 1 - other].job_id@ != groups[n - 1 - at].job_id@);
        }
    }
}

/// The updates that a step of a round is about.
pub open spec fn updates_at<E, U, V, M>(step: UpdateStatusesStep<E, U, V, M>) -> Option<
    JobUpdates<U>,
> {
    match step {
        UpdateStatusesStep::Apply(at) => Some(at.updates),
        UpdateStatusesStep::PassOver(at) => Some(at.updates),
        UpdateStatusesStep::Finished(_) => None,
    }
}

/// Where a round of status updates stands after some steps.
pub(crate) proof fn lemma_round_at<E, U, V, M>(
    managers: Seq<Manager>,
    executor: ExecutorMetadata,
    groups: Seq<JobUpdates<U>>,
    answers: Seq<TaskStatusUpdateResult<V, M>>,
    steps: Seq<UpdateStatusesStep<E, U, V, M>>,
    at: int,
)
    requires
        round_runs(managers, executor, groups, answers, steps),
        0 <= at <= groups.len(),
    ensures
        updates_on(
            managers[at],
            executor,
            groups.take(groups.len() - at),
            collected(steps, answers, at),
            steps[at],
        ),
    decreases at,
{
    if at == 0 {
        assert(groups.take(groups.len() as int) =~= groups);
    } else {
        lemma_round_at(managers, executor, groups, answers, steps, at - 1);
        assert(round_goes_on(managers[at], steps[at - 1], answers[at - 1], steps[at]));
        assert(groups.take(groups.len() - at + 1).drop_last() =~= groups.take(groups.len() - at));
    }
}

/// In the row of a stage that has one slot for each partition, no more
/// partitions are completed than assigned, and no more assigned than there are.
pub proof fn law_progress_is_bounded<T>(stage_id: usize, stage: ExecutionStage<T>)
    requires
        stage matches ExecutionStage::Running(running) ==> running.task_infos@.len()
            == running.partitions,
    ensures
        ({
            let row = stage_progress(stage_id, stage);
            row.completed <= row.assigned <= row.partitions
        }),
{
    if let ExecutionStage::Running(running) = stage {
        running.task_infos@.lemma_filter_len(|info: Option<T>| info is Some);
    }
}

/// The rows of one stage end in the last row of that stage.
proof fn lemma_filter_last(rows: Seq<StageProgress>)
    requires
        rows.len() > 0,
    ensures
        forall|stage_id: usize|
            rows.filter(#[trigger] of_stage(stage_id)) == (if rows.last().stage_id == stage_id {
                rows.drop_last().filter(of_stage(stage_id)).push(rows.last())
            } else {
                rows.drop_last().filter(of_stage(stage_id))
            }),
{
    reveal(Seq::filter);
}

/// A row of a stage is found among the rows of that stage, and only such rows
/// are.
proof fn lemma_filter_nonempty(rows: Seq<StageProgress>, stage_id: usize)
    ensures
        rows.filter(of_stage(stage_id)).len() > 0 <==> exists|i: int|
            0 <= i < rows.len() && (#[trigger] rows[i]).stage_id == stage_id,
    decreases rows.len(),
{
    if rows.len() > 0 {
        lemma_filter_last(rows);
        lemma_filter_nonempty(rows.drop_last(), stage_id);
        let shorter = rows.drop_last();
        if rows.last().stage_id == stage_id {
            assert(rows[rows.len() - 1].stage_id == stage_id);
        } else if shorter.filter(of_stage(stage_id)).len() > 0 {
            let i = choose|i: int| 0 <= i < shorter.len() && (#[trigger] shorter[i]).stage_id == stage_id;
            assert(rows[i].stage_id == stage_id);
        } else if exists|i: int| 0 <= i < rows.len() && (#[trigger] rows[i]).stage_id == stage_id {
            let i = choose|i: int| 0 <= i < rows.len() && (#[trigger] rows[i]).stage_id == stage_id;
            assert(shorter[i].stage_id == stage_id);
        }
    } else {
        reveal(Seq::filter);
    }
}

/// Rows that are in order are told apart by what they hold of each stage.
proof fn lemma_same_rows(left: Seq<StageProgress>, right: Seq<StageProgress>)
    requires
        in_stage_order(left),
        in_stage_order(right),
        forall|stage_id: usize|
            left.filter(#[trigger] of_stage(stage_id)) == right.filter(of_stage(stage_id)),
    ensures
        left == right,
    decreases left.len(),
{
    if left.len() == 0 || right.len() == 0 {
        if left.len() > 0 {
            lemma_filter_nonempty(left, left[0].stage_id);
            lemma_filter_nonempty(right, left[0].stage_id);
            assert(left.filter(of_stage(left[0].stage_id)).len() > 0);
        }
        if right.len() > 0 {
            lemma_filter_nonempty(left, right[0].stage_id);
            lemma_filter_nonempty(right, right[0].stage_id);
            assert(right.filter(of_stage(right[0].stage_id)).len() > 0);
        }
        assert(left =~= right);
    } else {
        let l = left.last().stage_id;
        let r = right.last().stage_id;
        assert(left[left.len() - 1].stage_id == l && right[right.len() - 1].stage_id == r);
        lemma_filter_nonempty(left, l);
        lemma_filter_nonempty(right, l);
        lemma_filter_nonempty(left, r);
        lemma_filter_nonempty(right, r);
        assert(left.filter(of_stage(l)) == right.filter(of_stage(l)));
        assert(left.filter(of_stage(r)) == right.filter(of_stage(r)));
        let i = choose|i: int| 0 <= i < right.len() && (#[trigger] right[i]).stage_id == l;
        let j = choose|j: int| 0 <= j < left.len() && (#[trigger] left[j]).stage_id == r;
        assert(right[i].stage_id <= right[right.len() - 1].stage_id);
        assert(left[j].stage_id <= left[left.len() - 1].stage_id);
        assert(l == r);
        lemma_filter_last(left);
        lemma_filter_last(right);
        assert(left.filter(of_stage(l)).last() == left.last());
        assert(right.filter(of_stage(l)).last() == right.last());
        assert forall|stage_id: usize|
            left.drop_last().filter(#[trigger] of_stage(stage_id)) == right.drop_last().filter(
                of_stage(stage_id),
            ) by {
            assert(left.filter(of_stage(stage_id)) == right.filter(of_stage(stage_id)));
            if stage_id == l {
                assert(left.filter(of_stage(stage_id)).drop_last() =~= left.drop_last().filter(
                    of_stage(stage_id),
                ));
                assert(right.filter(of_stage(stage_id)).drop_last() =~= right.drop_last().filter(
                    of_stage(stage_id),
                ));
            }
        }
        lemma_same_rows(left.drop_last(), right.drop_last());
        assert(left =~= left.drop_last().push(left.last()));
        assert(right =~= right.drop_last().push(right.last()));
    }
}

/// A progress snapshot of a graph is determined by what was read of the graph:
/// there is only one way to order its rows.
pub proof fn law_snapshot_is_determined(
    rows: Seq<StageProgress>,
    left: Seq<StageProgress>,
    right: Seq<StageProgress>,
)
    requires
        sorted_by_stage(rows, left),
        sorted_by_stage(rows, right),
    ensures
        left == right,
{
    assert forall|stage_id: usize|
        left.filter(#[trigger] of_stage(stage_id)) == right.filter(of_stage(stage_id)) by {
        assert(rows.filter(of_stage(stage_id)) == left.filter(of_stage(stage_id)));
    }
    lemma_same_rows(left, right);
}

/// A stage that is read once has one row.
proof fn lemma_single_row(rows: Seq<StageProgress>, at: int)
    requires
        0 <= at < rows.len(),
        forall|i: int, j: int|
            0 <= i < j < rows.len() ==> (#[trigger] rows[i]).stage_id != (#[trigger] rows[j]).stage_id,
    ensures
        rows.filter(of_stage(rows[at].stage_id)) =~= seq![rows[at]],
    decreases rows.len(),
{
    let stage_id = rows[at].stage_id;
    let shorter = rows.drop_last();
    lemma_filter_last(rows);
    if at == rows.len() - 1 {
        lemma_filter_nonempty(shorter, stage_id);
        if shorter.filter(of_stage(stage_id)).len() > 0 {
            let i = choose|i: int| 0 <= i < shorter.len() && (#[trigger] shorter[i]).stage_id == stage_id;
            assert(rows[i].stage_id == rows[at].stage_id);
        }
    } else {
        assert(rows[at].stage_id != rows[rows.len() - 1].stage_id);
        assert forall|i: int, j: int| 0 <= i < j < shorter.len() implies (
        #[trigger] shorter[i]).stage_id != (#[trigger] shorter[j]).stage_id by {
            assert(rows[i].stage_id != rows[j].stage_id);
        }
        lemma_single_row(shorter, at);
        assert(shorter[at] == rows[at]);
    }
}

/// The order in which the stages of a graph are read, which is left open, does
/// not show in a progress snapshot: two readings of the same stages give the
/// same rows. So a change between snapshots is a change of the graph.
pub proof fn law_reading_order_does_not_show<T>(
    first: Seq<(usize, ExecutionStage<T>)>,
    second: Seq<(usize, ExecutionStage<T>)>,
    first_rows: Seq<StageProgress>,
    second_rows: Seq<StageProgress>,
)
    requires
        stages_are_distinct(first),
        stages_are_distinct(second),
        forall|stage: (usize, ExecutionStage<T>)| #[trigger]
            first.contains(stage) <==> second.contains(stage),
        sorted_by_stage(rows_of(first), first_rows),
        sorted_by_stage(rows_of(second), second_rows),
    ensures
        first_rows == second_rows,
{
    assert forall|stage_id: usize|
        first_rows.filter(#[trigger] of_stage(stage_id)) == second_rows.filter(
            of_stage(stage_id),
        ) by {
        assert(rows_of(first).filter(of_stage(stage_id)) == first_rows.filter(of_stage(stage_id)));
        assert(rows_of(second).filter(of_stage(stage_id)) == second_rows.filter(
            of_stage(stage_id),
        ));
        lemma_same_stage_rows(first, second, stage_id);
    }
    lemma_same_rows(first_rows, second_rows);
}

/// Whether no stage is read twice.
pub open spec fn stages_are_distinct<T>(stages: Seq<(usize, ExecutionStage<T>)>) -> bool {
    forall|i: int, j: int|
        0 <= i < j < stages.len() ==> (#[trigger] stages[i]).0 != (#[trigger] stages[j]).0
}

proof fn lemma_rows_are_distinct<T>(stages: Seq<(usize, ExecutionStage<T>)>)
    requires
        stages_are_distinct(stages),
    ensures
        forall|i: int, j: int|
            0 <= i < j < rows_of(stages).len() ==> (#[trigger] rows_of(stages)[i]).stage_id != (
            #[trigger] rows_of(stages)[j]).stage_id,
{
    assert forall|i: int, j: int| 0 <= i < j < rows_of(stages).len() implies (
    #[trigger] rows_of(stages)[i]).stage_id != (#[trigger] rows_of(stages)[j]).stage_id by {
        assert(stages[i].0 != stages[j].0);
    }
}

proof fn lemma_same_stage_rows<T>(
    first: Seq<(usize, ExecutionStage<T>)>,
    second: Seq<(usize, ExecutionStage<T>)>,
    stage_id: usize,
)
    requires
        stages_are_distinct(first),
        stages_are_distinct(second),
        forall|stage: (usize, ExecutionStage<T>)| #[trigger]
            first.contains(stage) <==> second.contains(stage),
    ensures
        rows_of(first).filter(of_stage(stage_id)) == rows_of(second).filter(of_stage(stage_id)),
{
    let left = rows_of(first);
    let right = rows_of(second);
    lemma_rows_are_distinct(first);
    lemma_rows_are_distinct(second);
    lemma_filter_nonempty(left, stage_id);
    lemma_filter_nonempty(right, stage_id);
    if left.filter(of_stage(stage_id)).len() > 0 {
        let i = choose|i: int| 0 <= i < left.len() && (#[trigger] left[i]).stage_id == stage_id;
        assert(first.contains(first[i]));
        assert(second.contains(first[i]));
        let j = choose|j: int| 0 <= j < second.len() && second[j] == first[i];
        assert(right[j] == left[i]);
        lemma_single_row(left, i);
        lemma_single_row(right, j);
    } else if right.filter(of_stage(stage_id)).len() > 0 {
        let j = choose|j: int| 0 <= j < right.len() && (#[trigger] right[j]).stage_id == stage_id;
        assert(second.contains(second[j]));
        assert(first.contains(second[j]));
        let i = choose|i: int| 0 <= i < first.len() && first[i] == second[j];
        assert(left[i] == right[j]);
        assert(left[i].stage_id == stage_id);
    } else {
        assert(left.filter(of_stage(stage_id)) =~= right.filter(of_stage(stage_id)));
    }
}

/// The status updates of all groups together.
pub open spec fn ungrouped<U>(groups: Seq<JobUpdates<U>>) -> Multiset<TaskStatus<U>>
    decreases groups.len(),
{
    if groups.len() == 0 {
        Multiset::empty()
    } else {
        ungrouped(groups.drop_last()).add(groups.last().statuses@.to_multiset())
    }
}

/// Sorting status updates by job loses none and repeats none.
pub proof fn law_grouping_keeps_updates<U>(
    statuses: Seq<TaskStatus<U>>,
    groups: Seq<JobUpdates<U>>,
)
    requires
        grouped_by_job(statuses, groups),
    ensures
        ungrouped(groups) =~= statuses.to_multiset(),
{
    assert forall|status: TaskStatus<U>|
        ungrouped(groups).count(status) == statuses.to_multiset().count(status) by {
        lemma_ungrouped_count(statuses, groups, status);
        if exists|g: int| 0 <= g < groups.len() && (#[trigger] groups[g]).job_id@ == status.job_id@ {
            lemma_filter_count(statuses, of_job(status.job_id@), status);
        } else {
            statuses.to_multiset_ensures();
            if statuses.contains(status) {
                let i = choose|i: int| 0 <= i < statuses.len() && statuses[i] == status;
                assert(statuses[i].job_id@ == status.job_id@);
            }
        }
    }
}

/// Filtering keeps every occurrence of what it keeps.
pub(crate) proof fn lemma_filter_count<A>(s: Seq<A>, keep: spec_fn(A) -> bool, x: A)
    ensures
        s.filter(keep).to_multiset().count(x) == (if keep(x) {
            s.to_multiset().count(x)
        } else {
            0
        }),
    decreases s.len(),
{
    reveal(Seq::filter);
    if s.len() == 0 {
        assert(s.filter(keep) =~= s);
        s.to_multiset_ensures();
        if s.to_multiset().count(x) > 0 {
            assert(s.contains(x));
        }
    } else {
        let shorter = s.drop_last();
        lemma_filter_count(shorter, keep, x);
        assert(s =~= shorter.push(s.last()));
        shorter.to_multiset_ensures();
        shorter.filter(keep).to_multiset_ensures();
    }
}

/// The groups hold an update as often as it came, if they hold its job.
proof fn lemma_ungrouped_count<U>(
    statuses: Seq<TaskStatus<U>>,
    groups: Seq<JobUpdates<U>>,
    status: TaskStatus<U>,
)
    requires
        forall|g: int|
            0 <= g < groups.len() ==> (#[trigger] groups[g]).statuses@ == statuses.filter(
                of_job(groups[g].job_id@),
            ),
        forall|g: int, h: int|
            0 <= g < h < groups.len() ==> (#[trigger] groups[g]).job_id@ != (
            #[trigger] groups[h]).job_id@,
    ensures
        ungrouped(groups).count(status) == (if exists|g: int|
            0 <= g < groups.len() && (#[trigger] groups[g]).job_id@ == status.job_id@ {
            statuses.filter(of_job(status.job_id@)).to_multiset().count(status)
        } else {
            0
        }),
    decreases groups.len(),
{
    if groups.len() > 0 {
        let shorter = groups.drop_last();
        let last = groups.last();
        assert forall|g: int| 0 <= g < shorter.len() implies (#[trigger] shorter[g]).statuses@
            == statuses.filter(of_job(shorter[g].job_id@)) by {
            assert(shorter[g] == groups[g]);
        }
        assert forall|g: int, h: int| 0 <= g < h < shorter.len() implies (
        #[trigger] shorter[g]).job_id@ != (#[trigger] shorter[h]).job_id@ by {
            assert(groups[g].job_id@ != groups[h].job_id@);
        }
        lemma_ungrouped_count(statuses, shorter, status);
        lemma_filter_count(statuses, of_job(last.job_id@), status);
        lemma_filter_count(statuses, of_job(status.job_id@), status);
        assert(groups[groups.len() - 1] == last);
        if last.job_id@ == status.job_id@ {
            if exists|g: int| 0 <= g < shorter.len() && (#[trigger] shorter[g]).job_id@ == status.job_id@ {
                let g = choose|g: int|
                    0 <= g < shorter.len() && (#[trigger] shorter[g]).job_id@ == status.job_id@;
                assert(groups[g].job_id@ != groups[groups.len() - 1].job_id@);
            }
        } else if exists|g: int| 0 <= g < groups.len() && (#[trigger] groups[g]).job_id@ == status.job_id@ {
            let g = choose|g: int|
                0 <= g < groups.len() && (#[trigger] groups[g]).job_id@ == status.job_id@;
            assert(shorter[g].job_id@ == status.job_id@);
        } else {
            if exists|g: int| 0 <= g < shorter.len() && (#[trigger] shorter[g]).job_id@ == status.job_id@ {
                let g = choose|g: int|
                    0 <= g < shorter.len() && (#[trigger] shorter[g]).job_id@ == status.job_id@;
                assert(groups[g].job_id@ == status.job_id@);
            }
        }
    }
}

} // verus!
