//! Errors of the task manager and the wording of its messages.
use vstd::prelude::*;
use vstd::string::*;

verus! {

/// Why an operation of the task manager did not succeed.
///
/// `E` is the error type of the collaborators: the persistent job state, the
/// planner and the plan encoder. Their errors travel unchanged in `Other`.
#[derive(Debug, PartialEq, Eq)]
pub enum BallistaError<E> {
    /// The job was cancelled.
    Cancelled,
    /// The manager reached a state that it should never be in.
    Internal(String),
    /// The request cannot be served.
    General(String),
    /// A collaborator failed.
    Other(E),
}

/// An outcome of a collaborator, with its error among the manager's own.
pub fn of_collaborator<T, E>(outcome: Result<T, E>) -> (own: Result<T, BallistaError<E>>)
    ensures
        own == (match outcome {
            Ok(value) => Ok::<T, BallistaError<E>>(value),
            Err(error) => Err::<T, BallistaError<E>>(BallistaError::Other(error)),
        }),
{
    match outcome {
        Ok(value) => Ok(value),
        Err(error) => Err(BallistaError::Other(error)),
    }
}

/// `prefix`, the job's identifier and `suffix`, in one text.
pub open spec fn message(prefix: Seq<char>, job_id: Seq<char>, suffix: Seq<char>) -> Seq<char> {
    prefix + job_id + suffix
}

/// Puts a job's identifier between two pieces of fixed wording.
pub(crate) fn job_message(prefix: &str, job_id: &str, suffix: &str) -> (text: String)
    ensures
        text@ == message(prefix@, job_id@, suffix@),
{
    prefix.to_owned().concat(job_id).concat(suffix)
}

} // verus!
