//! Laws of the setup-completion protocol, proved over every serialized
//! sequence of completion reports.
//!
//! The host's lock serializes concurrent calls to `report_task_complete`, so
//! any concurrent execution is observed as some sequence of reports; the
//! lemmas here therefore quantify over all `Seq<TaskId>` and cover every
//! interleaving.

use vstd::prelude::*;

use crate::coordinator::SetupState;
use crate::coordinator::apply_report;
use crate::coordinator::fire_count;
use crate::coordinator::initial_state;
use crate::coordinator::report_fires;
use crate::coordinator::state_after;
use crate::task::TaskId;

verus! {

/// Membership in a sequence, split at its last element.
proof fn lemma_contains_split_last<A>(s: Seq<A>, x: A)
    requires
        s.len() > 0,
    ensures
        s.contains(x) <==> (s.drop_last().contains(x) || s.last() == x),
{
    let prefix = s.drop_last();
    if s.contains(x) {
        let i = choose|i: int| 0 <= i < s.len() && s[i] == x;
        if i < s.len() - 1 {
            assert(prefix[i] == x);
            assert(prefix.contains(x));
        }
    }
    if prefix.contains(x) {
        let i = choose|i: int| 0 <= i < prefix.len() && prefix[i] == x;
        assert(s[i] == x);
        assert(s.contains(x));
    }
    if s.last() == x {
        assert(s[s.len() - 1] == x);
        assert(s.contains(x));
    }
}

/// After any sequence of reports, a task's flag is set exactly when it was
/// set at the start or the sequence contains a report for it. In particular
/// the flags are monotone and depend only on which tasks were reported, not
/// on their order or multiplicity.
pub proof fn lemma_state_after_characterized(init: SetupState, reports: Seq<TaskId>)
    ensures
        state_after(init, reports).frontend_done == (init.frontend_done || reports.contains(
            TaskId::Frontend,
        )),
        state_after(init, reports).backend_done == (init.backend_done || reports.contains(
            TaskId::Backend,
        )),
    decreases reports.len(),
{
    if reports.len() == 0 {
        assert(!reports.contains(TaskId::Frontend));
        assert(!reports.contains(TaskId::Backend));
    } else {
        lemma_state_after_characterized(init, reports.drop_last());
        lemma_contains_split_last(reports, TaskId::Frontend);
        lemma_contains_split_last(reports, TaskId::Backend);
    }
}

/// The number of reports that fire the transition equals the edge indicator:
/// one if the sequence moved the state from "not both done" to "both done",
/// zero otherwise.
pub proof fn lemma_fire_count_is_edge(init: SetupState, reports: Seq<TaskId>)
    ensures
        fire_count(init, reports) == (if state_after(init, reports).spec_both_done()
            && !init.spec_both_done() {
            1nat
        } else {
            0nat
        }),
    decreases reports.len(),
{
    if reports.len() > 0 {
        let prefix = reports.drop_last();
        lemma_fire_count_is_edge(init, prefix);
        lemma_state_after_characterized(init, prefix);
        lemma_contains_split_last(reports, TaskId::Frontend);
        lemma_contains_split_last(reports, TaskId::Backend);
        lemma_state_after_characterized(init, reports);
    }
}

/// Law: over every interleaving of completion reports that includes both a
/// frontend and a backend report, starting from the initial state, the
/// transition fires exactly once — never zero times, never more than once.
pub proof fn lemma_transition_fires_exactly_once(reports: Seq<TaskId>)
    requires
        reports.contains(TaskId::Frontend),
        reports.contains(TaskId::Backend),
    ensures
        fire_count(initial_state(), reports) == 1,
{
    lemma_state_after_characterized(initial_state(), reports);
    lemma_fire_count_is_edge(initial_state(), reports);
}

/// Law: from any state, no sequence of reports fires the transition more
/// than once.
pub proof fn lemma_transition_fires_at_most_once(init: SetupState, reports: Seq<TaskId>)
    ensures
        fire_count(init, reports) <= 1,
{
    lemma_fire_count_is_edge(init, reports);
}

/// Law: while either task has never been reported, the transition has not
/// fired.
pub proof fn lemma_no_fire_without_both(reports: Seq<TaskId>)
    requires
        !reports.contains(TaskId::Frontend) || !reports.contains(TaskId::Backend),
    ensures
        fire_count(initial_state(), reports) == 0,
{
    lemma_state_after_characterized(initial_state(), reports);
    lemma_fire_count_is_edge(initial_state(), reports);
}

/// Law: reporting a task that is already recorded changes nothing, and such
/// a repeated report never fires the transition.
pub proof fn lemma_report_idempotent(s: SetupState, task: TaskId)
    ensures
        apply_report(apply_report(s, task), task) == apply_report(s, task),
        !report_fires(apply_report(s, task), task),
{
}

/// Law: any number of racing backend reports, serialized by the lock, leave
/// the same observable state as a single backend report, and fire the
/// transition at most once — exactly once when the frontend was already done
/// and the backend was not.
pub proof fn lemma_concurrent_backend_reports(init: SetupState, reports: Seq<TaskId>)
    requires
        reports.len() > 0,
        forall|i: int| 0 <= i < reports.len() ==> reports[i] == TaskId::Backend,
    ensures
        state_after(init, reports) == apply_report(init, TaskId::Backend),
        fire_count(init, reports) == (if init.frontend_done && !init.backend_done {
            1nat
        } else {
            0nat
        }),
{
    assert(reports.contains(TaskId::Backend)) by {
        assert(reports[0] == TaskId::Backend);
    }
    assert(!reports.contains(TaskId::Frontend)) by {
        if reports.contains(TaskId::Frontend) {
            let i = choose|i: int| 0 <= i < reports.len() && reports[i] == TaskId::Frontend;
            assert(reports[i] == TaskId::Backend);
        }
    }
    lemma_state_after_characterized(init, reports);
    lemma_fire_count_is_edge(init, reports);
}

} // verus!
