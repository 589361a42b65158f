//! What a callback dispatcher may conclude, and the failure boundary.
//!
//! Every subsystem's trampoline runs the same shape of decision: resolve
//! the capsule, re-wrap the calling object, classify the event-type
//! code, and invoke at most one registered handler.  [`Delivery`] names
//! the possible conclusions; the dispatchers' contracts pin which one
//! each input is owed.
//!
//! The trampoline itself is foreign-callable, and unwinding across the C
//! calling convention is undefined behaviour, so everything that runs
//! user logic sits inside a failure boundary.  [`contain`] is the
//! boundary's decision: a handler that returned, however it returned, is
//! contained and the pump continues; a handler that unwound forces a
//! deliberate, logged process abort, because continuing with unknown
//! native-library state is worse than stopping.

use vstd::prelude::*;

verus! {

/// What one callback delivery amounted to.
#[derive(Clone, Copy, Debug, PartialEq, Eq, Structural)]
pub enum Delivery {
    /// The token did not resolve to this subsystem's context: the
    /// callback was dropped without touching the event.
    ContextMismatch,
    /// The calling object's handle failed validation: the callback was
    /// dropped.
    BadObject,
    /// The event-type code is outside the subsystem's known
    /// enumeration: a logged no-op, never a fault.
    UnknownEvent,
    /// The event kind is known but no handler is registered for it.
    Unhandled,
    /// The event handle failed validation: the callback was dropped.
    BadEvent,
    /// The registered handler was invoked.
    Invoked,
}

/// How a user handler left the failure boundary.
#[derive(Clone, Copy, Debug, PartialEq, Eq, Structural)]
pub enum HandlerOutcome {
    /// The handler returned, with either outcome value.
    Returned,
    /// The handler began unwinding.
    Panicked,
}

/// What the failure boundary does next.
#[derive(Clone, Copy, Debug, PartialEq, Eq, Structural)]
pub enum BoundaryAction {
    /// Hand control back to the native library's event pump.
    Continue,
    /// Abort the process deliberately: an unwind must never cross the
    /// native stack frame, and the library's internal state can no
    /// longer be trusted.
    Abort,
}

/// The boundary decision: a returning handler is contained, an unwinding
/// one forces the abort path.
pub open spec fn spec_contain(outcome: HandlerOutcome) -> BoundaryAction {
    match outcome {
        HandlerOutcome::Returned => BoundaryAction::Continue,
        HandlerOutcome::Panicked => BoundaryAction::Abort,
    }
}

/// Decide what the failure boundary does with a handler outcome: exactly
/// one abort for an unwind, and never an unwind propagated onward.
pub fn contain(outcome: HandlerOutcome) -> (r: BoundaryAction)
    ensures
        r == spec_contain(outcome),
        outcome is Panicked <==> r is Abort,
{
    match outcome {
        HandlerOutcome::Returned => BoundaryAction::Continue,
        HandlerOutcome::Panicked => BoundaryAction::Abort,
    }
}

} // verus!
