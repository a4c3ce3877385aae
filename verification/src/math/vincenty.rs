//! The decision core of Vincenty's inverse formula.
//!
//! The formula iterates a floating-point update of the longitude difference
//! λ.  The arithmetic of one update is floating-point work and stays
//! outside the library; every decision the iteration takes is made here,
//! verified, over the bit patterns of the computed values:
//!
//! - if sin σ evaluates to exactly zero, the points coincide on the
//!   ellipsoid surface and the distance is zero at once (this also guards
//!   the division by sin σ in the remaining arithmetic);
//! - if |λ − λ_previous| falls below the tolerance, the iteration has
//!   converged and the distance terms may be computed;
//! - if the fixed iteration cap is spent first, the computation fails with
//!   `VincentyDidNotConverge` — it is never silently approximated.
//!
//! The driver evaluates one iteration of the arithmetic, reports what it
//! found as a [`VincentyEvent`], and obeys the returned [`VincentyAction`].

use vstd::prelude::*;

use crate::float_bits::spec_abs_bits;
use crate::float_bits::spec_lt;

verus! {

/// The iteration cap: how many λ updates are evaluated before the
/// computation is declared non-convergent.
pub const VINCENTY_ITERATION_CAP: u64 = 100;

/// The bit pattern of the convergence tolerance, 1e-12 radians: the
/// iteration has converged when |λ − λ_previous| is strictly below it.
pub const VINCENTY_TOLERANCE_BITS: u64 = 0x3d71_9799_812d_ea11;

/// What one evaluation of the iteration arithmetic found.
#[derive(Clone, Copy, Debug, PartialEq, Eq, Structural)]
pub enum VincentyEvent {
    /// sin σ evaluated to exactly zero: the two points coincide on the
    /// ellipsoid surface.
    CoincidentPoints,
    /// λ was recomputed; the field is the bit pattern of λ − λ_previous.
    LambdaUpdated { lambda_delta: u64 },
}

/// What the driver must do after reporting an event.
#[derive(Clone, Copy, Debug, PartialEq, Eq, Structural)]
pub enum VincentyAction {
    /// The points coincide: return distance zero immediately.
    ReturnZeroDistance,
    /// The iteration converged: leave the loop and compute the distance
    /// from the converged state.
    Finish,
    /// Not converged and budget remains: evaluate another iteration.
    Iterate,
    /// The cap is spent without convergence: fail with
    /// `VincentyDidNotConverge`.
    FailDidNotConverge,
}

/// The λ update converged: its change is strictly below the tolerance.
/// False for a NaN change, as the floating-point comparison is.
pub open spec fn spec_converged(lambda_delta: u64) -> bool {
    spec_lt(spec_abs_bits(lambda_delta), VINCENTY_TOLERANCE_BITS)
}

/// The event ends no run: the points did not coincide and the update did
/// not converge, so the iteration would have to go on.
pub open spec fn spec_event_continues(event: VincentyEvent) -> bool {
    match event {
        VincentyEvent::CoincidentPoints => false,
        VincentyEvent::LambdaUpdated { lambda_delta } => !spec_converged(lambda_delta),
    }
}

/// The action the solver takes on one event, with `remaining` evaluations
/// (this one included) left in the budget.
pub open spec fn spec_step_action(remaining: u64, event: VincentyEvent) -> VincentyAction {
    match event {
        VincentyEvent::CoincidentPoints => VincentyAction::ReturnZeroDistance,
        VincentyEvent::LambdaUpdated { lambda_delta } => if spec_converged(lambda_delta) {
            VincentyAction::Finish
        } else if remaining <= 1 {
            VincentyAction::FailDidNotConverge
        } else {
            VincentyAction::Iterate
        },
    }
}

/// The decision state of one Vincenty computation: how many evaluations of
/// the iteration arithmetic are still allowed.
pub struct VincentySolver {
    pub remaining: u64,
}

impl VincentySolver {
    /// A fresh computation, with the full iteration cap to spend.
    pub fn new() -> (s: VincentySolver)
        ensures
            s.remaining == VINCENTY_ITERATION_CAP,
    {
        VincentySolver { remaining: VINCENTY_ITERATION_CAP }
    }

    /// Takes the result of one evaluation of the iteration arithmetic and
    /// decides how the computation goes on, spending one evaluation of the
    /// budget.  The decision is exactly `spec_step_action`: coincident
    /// points stop the run with the zero distance whatever budget is left;
    /// a converged update finishes it; otherwise it iterates until the
    /// budget is spent, and then fails.
    pub fn observe(&mut self, event: VincentyEvent) -> (action: VincentyAction)
        ensures
            action == spec_step_action(old(self).remaining, event),
            final(self).remaining == if old(self).remaining >= 1 {
                (old(self).remaining - 1) as u64
            } else {
                0u64
            },
            action == VincentyAction::Iterate ==> final(self).remaining >= 1,
    {
        let budget: u64 = self.remaining;
        if self.remaining >= 1 {
            self.remaining = self.remaining - 1;
        }
        match event {
            VincentyEvent::CoincidentPoints => VincentyAction::ReturnZeroDistance,
            VincentyEvent::LambdaUpdated { lambda_delta } => {
                if crate::float_bits::lt(
                    crate::float_bits::abs_bits(lambda_delta),
                    VINCENTY_TOLERANCE_BITS,
                ) {
                    VincentyAction::Finish
                } else if budget <= 1 {
                    VincentyAction::FailDidNotConverge
                } else {
                    VincentyAction::Iterate
                }
            },
        }
    }
}

/// The outcome of feeding a sequence of events to a fresh budget of
/// `remaining` evaluations: the first terminal action, or `None` when the
/// events run out while the solver still iterates.
pub open spec fn spec_solver_run(events: Seq<VincentyEvent>, remaining: u64) -> Option<
    VincentyAction,
>
    decreases events.len(),
{
    if events.len() == 0 {
        None
    } else {
        let action = spec_step_action(remaining, events[0]);
        if action == VincentyAction::Iterate {
            spec_solver_run(events.drop_first(), (remaining - 1) as u64)
        } else {
            Some(action)
        }
    }
}

/// Coincident points stop the computation at its first evaluation: the run
/// returns the zero distance immediately, without iterating toward the
/// cap, whatever budget is left.
pub proof fn lemma_coincident_points_stop_immediately(events: Seq<VincentyEvent>, remaining: u64)
    requires
        events.len() >= 1,
        events[0] == VincentyEvent::CoincidentPoints,
    ensures
        spec_solver_run(events, remaining) == Some(VincentyAction::ReturnZeroDistance),
{
}

/// The computation fails with `FailDidNotConverge` exactly when the whole
/// budget is spent on events that end nothing: no coincident points and no
/// converged update among the first `remaining` evaluations.
pub proof fn lemma_did_not_converge_iff_budget_spent(events: Seq<VincentyEvent>, remaining: u64)
    requires
        1 <= remaining <= events.len(),
    ensures
        spec_solver_run(events, remaining) == Some(VincentyAction::FailDidNotConverge) <==> (forall|
            i: int,
        |
            0 <= i < remaining ==> spec_event_continues(events[i])),
    decreases remaining,
{
    if remaining == 1 {
    } else if spec_event_continues(events[0]) {
        let tail = events.drop_first();
        lemma_did_not_converge_iff_budget_spent(tail, (remaining - 1) as u64);
        if spec_solver_run(events, remaining) == Some(VincentyAction::FailDidNotConverge) {
            assert forall|i: int| 0 <= i < remaining implies spec_event_continues(events[i]) by {
                if i >= 1 {
                    assert(tail[i - 1] == events[i]);
                    assert(spec_event_continues(tail[i - 1]));
                }
            }
        } else {
            if forall|i: int| 0 <= i < remaining ==> spec_event_continues(events[i]) {
                assert forall|i: int| 0 <= i < remaining - 1 implies spec_event_continues(
                    tail[i],
                ) by {
                    assert(tail[i] == events[i + 1]);
                    assert(spec_event_continues(events[i + 1]));
                }
                assert(spec_solver_run(tail, (remaining - 1) as u64) == Some(
                    VincentyAction::FailDidNotConverge,
                ));
                assert(false);
            }
        }
    } else {
        assert(spec_solver_run(events, remaining) != Some(VincentyAction::FailDidNotConverge));
    }
}

/// The outcome is decided within the budget: only the first `remaining`
/// events are ever examined.
pub proof fn lemma_run_decided_within_budget(events: Seq<VincentyEvent>, remaining: u64)
    requires
        1 <= remaining <= events.len(),
    ensures
        spec_solver_run(events, remaining) == spec_solver_run(
            events.take(remaining as int),
            remaining,
        ),
    decreases remaining,
{
    if remaining == 1 {
    } else {
        lemma_run_decided_within_budget(events.drop_first(), (remaining - 1) as u64);
        assert(events.take(remaining as int).drop_first() =~= events.drop_first().take(
            remaining - 1,
        ));
    }
}

} // verus!
