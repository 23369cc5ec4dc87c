//! Promises of the control of a job.
use vstd::prelude::*;

use crate::lifecycle::{JobLifecycleControl, JobLifecyclePhase};

verus! {

/// Whether two phases are the same, reasons included.
pub open spec fn same_phase(left: JobLifecyclePhase, right: JobLifecyclePhase) -> bool {
    &&& left is Queued <==> right is Queued
    &&& left is Publishing <==> right is Publishing
    &&& left is Active <==> right is Active
    &&& left is Aborted <==> right is Aborted
    &&& left is Aborted ==> left->reason@ == right->reason@
}

/// Whether two controls are the same.
pub open spec fn same_control(left: JobLifecycleControl, right: JobLifecycleControl) -> bool {
    &&& same_phase(left.phase, right.phase)
    &&& left.publication_finished == right.publication_finished
}

/// A new control lets a publisher pass, and no publication has ended.
pub proof fn law_new_control_is_open(control: JobLifecycleControl)
    requires
        call_ensures(JobLifecycleControl::new, (), control),
    ensures
        control.phase is Queued,
        !control.publication_finished,
{
}

/// A reason is read off a control if and only if the job is aborted, and it is
/// the reason that the job was aborted for.
pub proof fn law_reason_is_read_off(control: JobLifecycleControl, reason: Option<String>)
    requires
        call_ensures(JobLifecycleControl::abort_reason, (&control,), reason),
    ensures
        reason is Some <==> control.phase is Aborted,
        reason matches Some(text) ==> text@ == control.phase->reason@,
{
}

/// A control says that a job is being published exactly while it is.
pub proof fn law_publishing_is_told(control: JobLifecycleControl, publishing: bool)
    requires
        call_ensures(JobLifecycleControl::is_publishing, (&control,), publishing),
    ensures
        publishing <==> control.phase is Publishing,
{
}

/// Only a queued job begins to be published; then the flag is cleared. Any other
/// control stays as it is.
pub proof fn law_only_queued_jobs_begin(control: &mut JobLifecycleControl, begun: bool)
    requires
        call_ensures(JobLifecycleControl::begin_publication, (control,), begun),
    ensures
        begun <==> old(control).phase is Queued,
        begun ==> final(control).phase is Publishing && !final(control).publication_finished,
        !begun ==> same_control(*final(control), *old(control)),
{
}

/// Only a job that is being published is queued again; the flag stays. Any other
/// control stays as it is.
pub proof fn law_only_publishing_jobs_withdraw(control: &mut JobLifecycleControl)
    requires
        call_ensures(JobLifecycleControl::withdraw_publication, (control,), ()),
    ensures
        old(control).phase is Publishing ==> final(control).phase is Queued,
        !(old(control).phase is Publishing) ==> same_phase(
            final(control).phase,
            old(control).phase,
        ),
        final(control).publication_finished == old(control).publication_finished,
{
}

/// Only a job that is being published becomes active; the flag stays. Any other
/// control stays as it is.
pub proof fn law_only_publishing_jobs_become_active(
    control: &mut JobLifecycleControl,
    published: bool,
)
    requires
        call_ensures(JobLifecycleControl::publish, (control,), published),
    ensures
        published <==> old(control).phase is Publishing,
        published ==> final(control).phase is Active,
        !published ==> same_phase(final(control).phase, old(control).phase),
        final(control).publication_finished == old(control).publication_finished,
{
}

/// The end of a publication sets the flag and leaves the phase alone.
pub proof fn law_publication_end_sets_the_flag(control: &mut JobLifecycleControl)
    requires
        call_ensures(JobLifecycleControl::finish_publication, (control,), ()),
    ensures
        final(control).publication_finished,
        same_phase(final(control).phase, old(control).phase),
{
}

/// After a tombstone was put on a control the job is aborted: for the reason of
/// the first tombstone. The flag stays.
pub proof fn law_tombstone_aborts(control: &mut JobLifecycleControl, reason: String)
    requires
        call_ensures(JobLifecycleControl::tombstone, (control, &reason), ()),
    ensures
        final(control).phase is Aborted,
        final(control).phase->reason@ == if old(control).phase is Aborted {
            old(control).phase->reason@
        } else {
            reason@
        },
        final(control).publication_finished == old(control).publication_finished,
{
}

} // verus!
