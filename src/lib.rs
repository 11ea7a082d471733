//! Discovery of local clones with pull requests awaiting the user's review,
//! and the bookkeeping around the worktrees and sessions opened for them.
use vstd::prelude::*;

pub mod collect;
pub mod config;
pub mod discovery;
pub mod effects;
pub mod git;

verus! {

} // verus!
