//! The lifecycle of one job between being queued and being active.
//!
//! A [`JobLifecycleControl`] makes cancellation linearizable with persistent
//! submission and with publication in the active cache. Every function of this
//! module is one critical section of it.
use vstd::prelude::*;

verus! {

/// Tells one control from another. Two controls that exist at the same time have
/// different identifiers.
pub type LifecycleId = u64;

/// Where a job stands in its lifecycle.
#[derive(Debug, PartialEq, Eq)]
pub enum JobLifecyclePhase {
    /// Accepted, not yet handed to the persistent job state.
    Queued,
    /// Handed to the persistent job state, not yet in the active cache.
    Publishing,
    /// In the active cache.
    Active,
    /// Cancelled or failed. This phase is a tombstone: nothing leaves it.
    Aborted {
        /// Why the job was aborted.
        reason: String,
    },
}

/// The mathematical counterpart of a [`JobLifecyclePhase`].
pub enum Phase {
    Queued,
    Publishing,
    Active,
    Aborted { reason: Seq<char> },
}

impl View for JobLifecyclePhase {
    type V = Phase;

    open spec fn view(&self) -> Phase {
        match self {
            JobLifecyclePhase::Queued => Phase::Queued,
            JobLifecyclePhase::Publishing => Phase::Publishing,
            JobLifecyclePhase::Active => Phase::Active,
            JobLifecyclePhase::Aborted { reason } => Phase::Aborted { reason: reason@ },
        }
    }
}

/// The control of one job.
#[derive(Debug, PartialEq, Eq)]
pub struct JobLifecycleControl {
    /// The job's phase.
    pub phase: JobLifecyclePhase,
    /// Whether the publication that began last has ended.
    pub publication_finished: bool,
}

/// The mathematical counterpart of a [`JobLifecycleControl`].
pub struct Control {
    pub phase: Phase,
    pub publication_finished: bool,
}

impl View for JobLifecycleControl {
    type V = Control;

    open spec fn view(&self) -> Control {
        Control { phase: self.phase@, publication_finished: self.publication_finished }
    }
}

impl Control {
    /// A control that nothing has passed yet.
    pub open spec fn fresh() -> Control {
        Control { phase: Phase::Queued, publication_finished: false }
    }

    pub open spec fn is_aborted(self) -> bool {
        self.phase is Aborted
    }

    /// The control after a publication was allowed to begin, or this one if it
    /// was not.
    pub open spec fn begin_publication(self) -> Control {
        if self.phase is Queued {
            Control { phase: Phase::Publishing, publication_finished: false }
        } else {
            self
        }
    }

    /// The control after the persistent job state refused the submission.
    pub open spec fn withdraw_publication(self) -> Control {
        if self.phase is Publishing {
            Control { phase: Phase::Queued, ..self }
        } else {
            self
        }
    }

    /// The control after the graph was put in the active cache, or this one if it
    /// must not be put there.
    pub open spec fn publish(self) -> Control {
        if self.phase is Publishing {
            Control { phase: Phase::Active, ..self }
        } else {
            self
        }
    }

    /// The control after the publisher has returned.
    pub open spec fn finish_publication(self) -> Control {
        Control { publication_finished: true, ..self }
    }

    /// The control with a tombstone on it. The first tombstone stays.
    pub open spec fn tombstone(self, reason: Seq<char>) -> Control {
        if self.phase is Aborted {
            self
        } else {
            Control { phase: Phase::Aborted { reason }, ..self }
        }
    }
}

impl JobLifecycleControl {
    /// A control for a job that has just been queued.
    pub fn new() -> (control: Self)
        ensures
            control@ == Control::fresh(),
    {
        JobLifecycleControl { phase: JobLifecyclePhase::Queued, publication_finished: false }
    }

    /// The reason on the tombstone, if there is one.
    pub fn abort_reason(&self) -> (reason: Option<String>)
        ensures
            match reason {
                Some(text) => self@.phase == (Phase::Aborted { reason: text@ }),
                None => !self@.is_aborted(),
            },
    {
        match &self.phase {
            JobLifecyclePhase::Aborted { reason } => Some(reason.clone()),
            _ => None,
        }
    }

    /// Whether a publisher has passed the control and not come back.
    pub fn is_publishing(&self) -> (publishing: bool)
        ensures
            publishing == (self@.phase is Publishing),
    {
        match &self.phase {
            JobLifecyclePhase::Publishing => true,
            _ => false,
        }
    }

    /// Lets a publisher pass if the job is queued. Says whether it did.
    pub fn begin_publication(&mut self) -> (begun: bool)
        ensures
            begun == (old(self)@.phase is Queued),
            final(self)@ == old(self)@.begin_publication(),
    {
        match &self.phase {
            JobLifecyclePhase::Queued => {
                self.publication_finished = false;
                self.phase = JobLifecyclePhase::Publishing;
                true
            },
            _ => false,
        }
    }

    /// Gives a job back to the queue after the persistent job state refused
    /// it, unless the job was aborted in the meantime.
    pub fn withdraw_publication(&mut self)
        ensures
            final(self)@ == old(self)@.withdraw_publication(),
    {
        if self.is_publishing() {
            self.phase = JobLifecyclePhase::Queued;
        }
    }

    /// Makes a job active if its publisher is still allowed to. Says whether
    /// it is.
    pub fn publish(&mut self) -> (published: bool)
        ensures
            published == (old(self)@.phase is Publishing),
            final(self)@ == old(self)@.publish(),
    {
        if self.is_publishing() {
            self.phase = JobLifecyclePhase::Active;
            true
        } else {
            false
        }
    }

    /// Records that the publisher has returned, whatever came of it.
    pub fn finish_publication(&mut self)
        ensures
            final(self)@ == old(self)@.finish_publication(),
    {
        self.publication_finished = true;
    }

    /// Puts a tombstone on the control. A tombstone that is already there keeps
    /// its reason.
    pub fn tombstone(&mut self, reason: &String)
        ensures
            final(self)@ == old(self)@.tombstone(reason@),
    {
        match &self.phase {
            JobLifecyclePhase::Aborted { .. } => {},
            _ => {
                self.phase = JobLifecyclePhase::Aborted { reason: reason.clone() };
            },
        }
    }
}

} // verus!
