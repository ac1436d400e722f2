//! Control messages exchanged between the supervisor and the runner.

use vstd::prelude::*;

verus! {

/// A control message sent by the supervisor and consumed by the runner.
#[derive(Clone, Copy, Debug, PartialEq, Eq, Structural)]
pub enum RunSignal {
    /// Restart the supervised child process.
    Rerun,
    /// Kill the child and terminate the runner.
    Stop,
}

} // verus!
