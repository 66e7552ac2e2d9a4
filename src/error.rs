//! The failures that the workflow operations report.

use vstd::prelude::*;

verus! {

/// The kinds of failure of a workflow operation.
#[derive(Clone, Copy, Debug, PartialEq, Eq, Structural)]
pub enum WorkflowError {
    /// The requested id does not exist, or an update matched no row.
    NotFound,
    /// The requested status change is not in the transition table.
    InvalidTransition,
    /// The actor's role or identity does not allow the operation.
    Unauthorized,
    /// The store refused the write, for example on a constraint violation.
    PersistenceFailure,
}

} // verus!
