//! How the kernel ends: the two outcomes that the platform is told.

use vstd::prelude::*;

verus! {

/// The outcome with which the kernel asks the platform to end execution.
/// How the platform is told is the platform's business.
#[derive(Clone, Copy, Debug, PartialEq, Eq, Structural)]
pub enum ExitStatus {
    /// The kernel ran to its end.
    Success,
    /// The kernel stopped on a fault.
    Failure,
}

} // verus!
