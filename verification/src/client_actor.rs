use vstd::prelude::*;
use crate::actor::Actor;
use crate::aggregate::ClientState;
use crate::error::ActorError;
use crate::runtime::{distributor_named, supervisor_kill, supervisor_stop};
use crate::traits::{TActor, TState};

verus! {

impl TState for ClientState {

}

/// The message-log actor variant: one supervised instance owning a
/// [`ClientState`], reachable under the symbolic address "client".
pub struct ClientActor {
    supervisor: bastion::supervisor::SupervisorRef,
}

impl ClientActor {
    /// Ask the runtime to stop this actor's supervision subtree; a refusal
    /// surfaces as the stop lifecycle error, never a panic.
    pub fn stop(&self) -> (r: Result<(), ActorError>)
        ensures
            r matches Err(e) ==> e == ActorError::StopError,
    {
        match supervisor_stop(&self.supervisor) {
            Ok(()) => Ok(()),
            Err(()) => Err(ActorError::StopError),
        }
    }

    /// Ask the runtime to kill this actor's supervision subtree; a refusal
    /// surfaces as the kill lifecycle error, never a panic.
    pub fn kill(&self) -> (r: Result<(), ActorError>)
        ensures
            r matches Err(e) ==> e == ActorError::KillError,
    {
        match supervisor_kill(&self.supervisor) {
            Ok(()) => Ok(()),
            Err(()) => Err(ActorError::KillError),
        }
    }
}

impl TActor for ClientActor {
    type State = ClientState;

    open spec fn declares_supervisor_callbacks() -> bool {
        false
    }

    open spec fn declares_restart_strategy() -> bool {
        false
    }

    open spec fn declares_strategy() -> bool {
        false
    }

    open spec fn declares_children_callbacks() -> bool {
        false
    }

    open spec fn declares_dispatcher() -> bool {
        false
    }

    open spec fn declares_distributor() -> bool {
        true
    }

    open spec fn spec_heartbeat_tick() -> Option<core::time::Duration> {
        None
    }

    open spec fn spec_name() -> Option<Seq<char>> {
        None
    }

    open spec fn spec_redundancy() -> Option<usize> {
        None
    }

    open spec fn declares_resizer() -> bool {
        false
    }

    fn default() -> Actor<Self> {
        Actor::<Self>::default()
    }

    fn with_supervisor(supervisor: bastion::supervisor::SupervisorRef) -> Self {
        Self { supervisor }
    }

    fn with_supervisor_callbacks() -> Option<bastion::Callbacks> {
        None
    }

    fn with_restart_strategy() -> Option<bastion::supervisor::RestartStrategy> {
        None
    }

    fn with_strategy() -> Option<bastion::supervisor::SupervisionStrategy> {
        None
    }

    fn with_children_callbacks() -> Option<bastion::Callbacks> {
        None
    }

    fn with_dispatcher() -> Option<bastion::dispatcher::Dispatcher> {
        None
    }

    fn with_distributor() -> Option<bastion::distributor::Distributor> {
        Some(distributor_named("client"))
    }

    fn with_heartbeat_tick() -> Option<core::time::Duration> {
        None
    }

    fn with_name() -> Option<String> {
        None
    }

    fn with_redundancy() -> Option<usize> {
        None
    }

    fn with_resizer() -> Option<bastion::resizer::OptimalSizeExploringResizer> {
        None
    }
}

} // verus!
