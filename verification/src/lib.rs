//! A local task runner: a registry of named tasks, where a task is a
//! command, a shell script, or a composite that runs other named tasks
//! in sequence or in parallel.
//!
//! This crate holds the verified core: the task data model, the
//! resolution of names against the registry, the decision logic of
//! sequential and parallel execution, and the error taxonomy. The
//! process spawning, thread fan-out and console output around it live
//! in the surrounding binary, which drives the decision functions here.

use vstd::prelude::*;

pub mod config;
pub mod error;
pub mod interface;
pub mod tasks;

verus! {

} // verus!
