//! The failure classes this library surfaces to its callers.

use vstd::prelude::*;

verus! {

/// Typed failures of the one-shot execution layer.
#[derive(Debug)]
pub enum ExecError {
    /// A one-shot source was executed a second time.
    AlreadyConsumed,
    /// An operation the node structurally cannot perform, such as
    /// attaching children to a leaf.
    Unsupported,
    /// A plan that violates the single-partition driver's contract, or a
    /// batch-size override of zero.
    PreconditionViolation,
    /// The engine reported a failure while starting plan execution; the
    /// payload carries its message.
    Execution(String),
    /// The profiling run failed to start; the payload carries the engine's
    /// message.
    Io(String),
}

impl ExecError {
    /// A human-readable description, as the host application reports it.
    pub fn message(&self) -> (r: String)
        ensures
            self is AlreadyConsumed ==> r@ == "OneShotExec has already been executed"@,
            self is Unsupported ==> r@ == "unsupported operation"@,
            self is PreconditionViolation ==> r@
                == "single-partition driver precondition violated"@,
            self matches ExecError::Execution(m) ==> r@ == m@,
            self matches ExecError::Io(m) ==> r@ == m@,
    {
        match self {
            ExecError::AlreadyConsumed => "OneShotExec has already been executed".to_owned(),
            ExecError::Unsupported => "unsupported operation".to_owned(),
            ExecError::PreconditionViolation => {
                "single-partition driver precondition violated".to_owned()
            },
            ExecError::Execution(m) => m.clone(),
            ExecError::Io(m) => m.clone(),
        }
    }
}

} // verus!
