//! What each operation promises, said of what goes into a call and what comes
//! out of it.
use vstd::prelude::*;

pub mod aborting;
pub mod accepting;
pub mod caching;
pub mod controls;
pub mod launching;
pub mod listing;
pub mod progressing;
pub mod reporting;
pub mod submitting;

verus! {

} // verus!
