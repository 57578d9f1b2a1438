use vstd::prelude::*;

verus! {

broadcast use vstd::string::group_string_axioms;

/// Errors signaled by lifecycle operations: starting a supervision tree,
/// creating a child group, or stopping / killing a running supervisor.
#[derive(Debug, Clone, Copy, PartialEq, Eq, Structural)]
pub enum ActorError {
    UnableToInitSupervisor,
    UnableToInitChildren,
    StopError,
    KillError,
    AddExecutorFailed,
}

impl ActorError {
    /// The diagnostic text of this error.
    pub open spec fn spec_message(self) -> Seq<char> {
        match self {
            ActorError::UnableToInitSupervisor => "Unable to initialize supervisor"@,
            ActorError::UnableToInitChildren => "Unable to initialize children"@,
            ActorError::StopError => "Supervisor stop error"@,
            ActorError::KillError => "Supervisor kill error"@,
            ActorError::AddExecutorFailed => "Add executor failed"@,
        }
    }

    pub fn message(&self) -> (r: String)
        ensures
            r@ == self.spec_message(),
    {
        match self {
            ActorError::UnableToInitSupervisor => "Unable to initialize supervisor".to_string(),
            ActorError::UnableToInitChildren => "Unable to initialize children".to_string(),
            ActorError::StopError => "Supervisor stop error".to_string(),
            ActorError::KillError => "Supervisor kill error".to_string(),
            ActorError::AddExecutorFailed => "Add executor failed".to_string(),
        }
    }
}

} // verus!
