//! The setup-completion state machine.
//!
//! `SetupState` holds one flag per setup task. Flags only ever move from
//! `false` to `true`, and the splash-to-main transition fires exactly at the
//! report that makes both flags true — edge-triggered, so re-reporting an
//! already-complete task never re-fires it. The host serializes calls to
//! [`SetupState::report_task_complete`] under a lock; every serialized
//! interleaving of reports is modelled here as a `Seq<TaskId>`, and the
//! one-shot guarantee is proved over all such sequences.

use vstd::prelude::*;

use crate::task::SetupError;
use crate::task::TaskId;
use crate::task::parse_task_id;

verus! {

/// Completion flags of the two setup tasks. Created once at process start
/// with both flags false; each flag, once true, never reverts.
#[derive(Clone, Copy, PartialEq, Eq, Debug, Structural)]
pub struct SetupState {
    pub frontend_done: bool,
    pub backend_done: bool,
}

/// The state every run starts from: nothing completed yet.
pub open spec fn initial_state() -> SetupState {
    SetupState { frontend_done: false, backend_done: false }
}

/// The state after one completion report: the named task's flag is set, the
/// other is left alone, and a flag already set stays set.
pub open spec fn apply_report(s: SetupState, task: TaskId) -> SetupState {
    SetupState {
        frontend_done: s.frontend_done || task == TaskId::Frontend,
        backend_done: s.backend_done || task == TaskId::Backend,
    }
}

/// Whether one completion report fires the transition: exactly when it is the
/// report that makes both flags true.
pub open spec fn report_fires(s: SetupState, task: TaskId) -> bool {
    apply_report(s, task).spec_both_done() && !s.spec_both_done()
}

/// The state after a serialized sequence of completion reports.
pub open spec fn state_after(init: SetupState, reports: Seq<TaskId>) -> SetupState
    decreases reports.len(),
{
    if reports.len() == 0 {
        init
    } else {
        apply_report(state_after(init, reports.drop_last()), reports.last())
    }
}

/// How many reports of a serialized sequence fire the transition.
pub open spec fn fire_count(init: SetupState, reports: Seq<TaskId>) -> nat
    decreases reports.len(),
{
    if reports.len() == 0 {
        0
    } else {
        fire_count(init, reports.drop_last()) + (if report_fires(
            state_after(init, reports.drop_last()),
            reports.last(),
        ) {
            1nat
        } else {
            0nat
        })
    }
}

impl SetupState {
    /// Both setup tasks have completed.
    pub open spec fn spec_both_done(self) -> bool {
        self.frontend_done && self.backend_done
    }

    /// Creates the coordinator state of a fresh run: both flags false.
    pub fn new() -> (s: SetupState)
        ensures
            s == initial_state(),
    {
        SetupState { frontend_done: false, backend_done: false }
    }

    /// Both setup tasks have completed.
    pub fn both_done(&self) -> (r: bool)
        ensures
            r == self.spec_both_done(),
    {
        self.frontend_done && self.backend_done
    }

    /// Records one task's completion and decides whether this report is the
    /// one that fires the transition sequence. The host calls this under its
    /// lock and, outside the lock, runs the transition exactly when `fire` is
    /// true.
    pub fn report(&mut self, task: TaskId) -> (fire: bool)
        ensures
            *final(self) == apply_report(*old(self), task),
            fire == report_fires(*old(self), task),
    {
        let before = self.frontend_done && self.backend_done;
        match task {
            TaskId::Frontend => {
                self.frontend_done = true;
            },
            TaskId::Backend => {
                self.backend_done = true;
            },
        }
        let after = self.frontend_done && self.backend_done;
        after && !before
    }

    /// Records the completion of the task named by `name`, as the host's
    /// command surface receives it. An invalid name is an error and leaves
    /// both flags untouched; a valid one behaves as [`SetupState::report`],
    /// and `Ok(true)` tells the caller to run the transition sequence.
    pub fn report_task_complete(&mut self, name: &str) -> (r: Result<bool, SetupError>)
        ensures
            name@ == "frontend"@ ==> *final(self) == apply_report(*old(self), TaskId::Frontend)
                && r == Ok::<bool, SetupError>(report_fires(*old(self), TaskId::Frontend)),
            name@ == "backend"@ ==> *final(self) == apply_report(*old(self), TaskId::Backend)
                && r == Ok::<bool, SetupError>(report_fires(*old(self), TaskId::Backend)),
            name@ != "frontend"@ && name@ != "backend"@ ==> *final(self) == *old(self) && r
                == Err::<bool, SetupError>(SetupError::InvalidTask),
            r is Err <==> name@ != "frontend"@ && name@ != "backend"@,
    {
        match parse_task_id(name) {
            Ok(task) => Ok(self.report(task)),
            Err(e) => Err(e),
        }
    }
}

} // verus!
