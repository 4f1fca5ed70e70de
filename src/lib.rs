//! A worker agent's job lifecycle: claiming a job, running it as a process
//! group, keeping its lease alive, reacting to cancellation and shutdown,
//! terminating it and reporting the outcome. The decisions are verified
//! transition functions; the program around them performs the actions.
use vstd::prelude::*;

pub mod decimal;
pub mod naming;
pub mod laws;
pub mod lifecycle;
pub mod process;
pub mod protocol;

verus! {

} // verus!
