//! Task identifiers and the error taxonomy of the setup protocol.

use vstd::prelude::*;

verus! {

/// The closed set of setup tasks: exactly two, the frontend readiness signal
/// and the backend warm-up task. Reporting any other name is an error, never
/// a silent no-op.
#[derive(Clone, Copy, PartialEq, Eq, Debug, Structural)]
pub enum TaskId {
    Frontend,
    Backend,
}

/// Errors of the setup protocol.
#[derive(Clone, Copy, PartialEq, Eq, Debug, Structural)]
pub enum SetupError {
    /// A completion report named a task outside the closed set.
    InvalidTask,
    /// The backend setup task did not complete within the envelope's ceiling.
    SetupTimeout,
}

/// Parses a task name into a `TaskId`. Only the two exact names `"frontend"`
/// and `"backend"` are accepted; everything else is `InvalidTask`.
pub fn parse_task_id(name: &str) -> (r: Result<TaskId, SetupError>)
    ensures
        name@ == "frontend"@ ==> r == Ok::<TaskId, SetupError>(TaskId::Frontend),
        name@ == "backend"@ ==> r == Ok::<TaskId, SetupError>(TaskId::Backend),
        name@ != "frontend"@ && name@ != "backend"@ ==> r == Err::<TaskId, SetupError>(
            SetupError::InvalidTask,
        ),
        r is Err <==> name@ != "frontend"@ && name@ != "backend"@,
{
    proof {
        reveal_strlit("frontend");
        reveal_strlit("backend");
    }
    let owned = name.to_owned();
    if owned == "frontend".to_owned() {
        proof {
            assert("frontend"@.len() != "backend"@.len());
        }
        Ok(TaskId::Frontend)
    } else if owned == "backend".to_owned() {
        Ok(TaskId::Backend)
    } else {
        Err(SetupError::InvalidTask)
    }
}

} // verus!
