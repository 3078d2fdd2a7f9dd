//! The bounded-time envelope around the backend setup task.
//!
//! The host races the backend warm-up work against a fixed ceiling. The
//! envelope's rule is verified here: work that finishes within the ceiling
//! resolves to success and is reported to the coordinator as a backend
//! completion; work that exceeds it resolves to `SetupTimeout`, no
//! completion report is ever made, and the coordinator is left waiting for a
//! backend completion that never arrives — an explicit, documented failure
//! mode, not a crash.

use vstd::prelude::*;

use crate::coordinator::SetupState;
use crate::coordinator::apply_report;
use crate::coordinator::report_fires;
use crate::task::SetupError;
use crate::task::TaskId;

verus! {

/// Ceiling, in milliseconds, that the envelope allows the backend setup
/// task before abandoning the wait.
pub const BACKEND_SETUP_CEILING_MS: u64 = 30000;

/// Resolves the envelope from the duration the backend work would need and
/// the ceiling it is raced against: success exactly when the work fits
/// within the ceiling, `SetupTimeout` otherwise.
pub fn resolve_envelope(work_ms: u64, ceiling_ms: u64) -> (r: Result<(), SetupError>)
    ensures
        work_ms <= ceiling_ms <==> r == Ok::<(), SetupError>(()),
        work_ms > ceiling_ms <==> r == Err::<(), SetupError>(SetupError::SetupTimeout),
{
    if work_ms <= ceiling_ms {
        Ok(())
    } else {
        Err(SetupError::SetupTimeout)
    }
}

/// Feeds the envelope's resolution into the coordinator. Success is exactly
/// one backend completion report; a timeout makes no report at all and
/// leaves the state untouched, so the transition cannot fire on its account.
pub fn absorb_backend_outcome(state: &mut SetupState, outcome: Result<(), SetupError>) -> (fire:
    bool)
    ensures
        outcome is Ok ==> *final(state) == apply_report(*old(state), TaskId::Backend) && fire
            == report_fires(*old(state), TaskId::Backend),
        outcome is Err ==> *final(state) == *old(state) && !fire,
{
    match outcome {
        Ok(()) => state.report(TaskId::Backend),
        Err(_) => false,
    }
}

} // verus!
