//! Status messages a worker loop hands to the caller, and the errors of the
//! orchestrator and the prover as a loop sees them.

use vstd::prelude::*;

verus! {

/// Stage of a task attempt, reported by `Event::Progress`.
#[derive(Clone, Copy, Debug, PartialEq, Eq, Structural)]
pub enum Stage {
    Fetching,
    Proving,
    Submitting,
}

#[derive(Clone, Debug)]
pub enum Event {
    Log(String),
    Progress { task_id: String, stage: Stage },
    Error(String),
    Completed(String),
}

/// How the orchestrator failed a request.
#[derive(Clone, Debug)]
pub enum OrchestratorError {
    /// Network failure, timeout: the loop tries again on its next iteration.
    Transient(String),
    /// Revoked node, protocol mismatch: the loop stops.
    Fatal(String),
}

impl OrchestratorError {
    pub open spec fn is_fatal_spec(&self) -> bool {
        self is Fatal
    }

    pub open spec fn message_spec(&self) -> Seq<char> {
        match self {
            OrchestratorError::Transient(m) => m@,
            OrchestratorError::Fatal(m) => m@,
        }
    }

    pub fn is_fatal(&self) -> (r: bool)
        ensures
            r == self.is_fatal_spec(),
    {
        match self {
            OrchestratorError::Transient(_) => false,
            OrchestratorError::Fatal(_) => true,
        }
    }

    pub fn message(&self) -> (r: String)
        ensures
            r@ == self.message_spec(),
    {
        match self {
            OrchestratorError::Transient(m) => m.clone(),
            OrchestratorError::Fatal(m) => m.clone(),
        }
    }
}

} // verus!
