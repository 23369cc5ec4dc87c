//! The decisions of a distributed query scheduler's task manager: which jobs
//! are queued, being published, active or aborted, what is cached for the
//! active ones, and what is sent to executors.
//!
//! The crate performs no input or output. An operation that has to wait for
//! persistent job state, an execution graph or a subscriber is a chain of
//! steps: each step says what the caller has to do next and takes the outcome
//! back.
use vstd::prelude::*;

pub mod abort;
pub mod cache;
pub mod encoding;
pub mod error;
pub mod graph;
pub mod jobs;
pub mod launch;
pub mod laws;
pub mod lifecycle;
pub mod manager;
pub mod maps;
pub mod progress;
pub mod promises;
mod seqs;
pub mod status;
pub mod submission;
pub mod tasks;
pub mod updates;

verus! {

} // verus!
