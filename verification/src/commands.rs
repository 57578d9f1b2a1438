use vstd::prelude::*;
use crate::events::strings_view;

verus! {

broadcast use vstd::string::group_string_axioms;

/// A request to change state. Commands are pure inputs to the decision
/// function [`crate::aggregate::Aggregate::handle`]; they never mutate state
/// directly, and may be rejected.
#[derive(Debug, Clone, PartialEq)]
pub enum ClientCommand {
    /// Append the carried messages to the log.
    Add(Vec<String>),
    /// Request the intentional no-op transition.
    Panic,
}

/// The mathematical shape of a [`ClientCommand`].
pub enum ClientCommandV {
    Add(Seq<Seq<char>>),
    Panic,
}

impl View for ClientCommand {
    type V = ClientCommandV;

    open spec fn view(&self) -> ClientCommandV {
        match self {
            ClientCommand::Add(msgs) => ClientCommandV::Add(strings_view(msgs@)),
            ClientCommand::Panic => ClientCommandV::Panic,
        }
    }
}

/// A domain error: a command judged invalid against the current state. The
/// message-log aggregate accepts every command, so it never produces one, but
/// the taxonomy is part of the command/event contract.
#[derive(Debug, Clone, Copy, PartialEq, Eq, Structural)]
pub enum ClientError {
    CommandRejected,
}

impl View for ClientError {
    type V = ClientError;

    open spec fn view(&self) -> ClientError {
        *self
    }
}

impl ClientError {
    /// The diagnostic text of this error.
    pub open spec fn spec_message(self) -> Seq<char> {
        match self {
            ClientError::CommandRejected => "Command rejected"@,
        }
    }

    pub fn message(&self) -> (r: String)
        ensures
            r@ == self.spec_message(),
    {
        match self {
            ClientError::CommandRejected => "Command rejected".to_string(),
        }
    }
}

} // verus!
