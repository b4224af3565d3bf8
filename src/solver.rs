use vstd::prelude::*;

verus! {

/// The most Newton iterations that one time step may take.
pub const MAX_ITER: u32 = 200;

/// What the driver does after a solve of the linear system.
#[derive(Debug, Clone, Copy, PartialEq, Eq, Structural)]
pub enum NewtonAction {
    /// Every non-linear device is within tolerance: commit the step.
    Converged,
    /// Reload the linearizations and solve again.
    Iterate,
    /// The iteration budget is spent: the step fails.
    NonConvergence,
}

/// The decision after solve number `iteration` (counted from one) of a time
/// step, given whether every device reported convergence on it.
pub open spec fn newton_action_of(iteration: nat, all_converged: bool) -> NewtonAction {
    if all_converged {
        NewtonAction::Converged
    } else if iteration >= MAX_ITER {
        NewtonAction::NonConvergence
    } else {
        NewtonAction::Iterate
    }
}

pub fn newton_action(iteration: u32, all_converged: bool) -> (r: NewtonAction)
    ensures
        r == newton_action_of(iteration as nat, all_converged),
{
    if all_converged {
        NewtonAction::Converged
    } else if iteration >= MAX_ITER {
        NewtonAction::NonConvergence
    } else {
        NewtonAction::Iterate
    }
}

/// Whether every device reported convergence.
pub fn all_converged(reports: &Vec<bool>) -> (r: bool)
    ensures
        r == (forall|i: int| 0 <= i < reports@.len() ==> #[trigger] reports@[i]),
{
    let mut i: usize = 0;
    while i < reports.len()
        invariant
            i <= reports@.len(),
            forall|k: int| 0 <= k < i ==> #[trigger] reports@[k],
        decreases reports@.len() - i,
    {
        if !reports[i] {
            return false;
        }
        i = i + 1;
    }
    true
}

} // verus!
