//! Developer-loop supervisor for a modular build-and-run workflow.
//!
//! Given a declarative list of modules, the library models the dependency
//! snapshot, the generated scaffold inputs, and the watch-mode supervision
//! protocol: a filesystem watcher, a reload cycle, and a single supervised
//! child process, with the races between config edits, dependency edits and
//! process exit resolved by two verified state machines.

use vstd::prelude::*;

pub mod args;
pub mod config;
pub mod error;
pub mod keymap;
pub mod runner;
pub mod scaffold;
pub mod setup;
pub mod signal;
pub mod supervisor;
pub mod watch;

verus! {

/// Subdirectory of the target root that holds the generated scaffold.
pub const BASE_PATH: &'static str = ".cyberfabric";

} // verus!
