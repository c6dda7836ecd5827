//! How a run of the program ends.

use crate::render::Phase;
use vstd::prelude::*;

verus! {

/// The ways a run can end.
#[derive(Clone, Copy, Debug, PartialEq, Eq, Structural)]
pub enum Outcome {
    /// The window was closed.
    Closed,
    /// The scene document could not be read or parsed. This is not held to
    /// be a failure of the program: the reason is printed and the run ends
    /// as if the window had been closed.
    DocumentUnreadable,
    /// Setting up the device failed, or a frame did.
    Failed,
}

/// The exit status for each way a run can end: 0 where it ended in the
/// ordinary way, 1 where it failed.
pub open spec fn exit_status(outcome: Outcome) -> i32 {
    match outcome {
        Outcome::Closed => 0,
        Outcome::DocumentUnreadable => 0,
        Outcome::Failed => 1,
    }
}

/// The exit status of a run that ended as `outcome` says.
pub fn exit_code(outcome: Outcome) -> (status: i32)
    ensures
        status == exit_status(outcome),
{
    match outcome {
        Outcome::Closed => 0,
        Outcome::DocumentUnreadable => 0,
        Outcome::Failed => 1,
    }
}

/// How the frame loop ended, if it has: closed where the window was closed,
/// failed where a step of a frame failed.
pub open spec fn outcome_of(phase: Phase) -> Option<Outcome> {
    match phase {
        Phase::Closed => Some(Outcome::Closed),
        Phase::Failed(_) => Some(Outcome::Failed),
        _ => None,
    }
}

impl Outcome {
    /// The outcome of a frame loop that stands at `phase`, if it has ended.
    pub fn of(phase: Phase) -> (outcome: Option<Outcome>)
        ensures
            outcome == outcome_of(phase),
    {
        match phase {
            Phase::Closed => Some(Outcome::Closed),
            Phase::Failed(_) => Some(Outcome::Failed),
            _ => None,
        }
    }
}

} // verus!
