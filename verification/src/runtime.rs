use vstd::prelude::*;
use crate::config::SupervisorConfig;
use crate::error::ActorError;

verus! {

// The supervision runtime's own types. They are opaque here: the library
// carries them as configuration data and hands them back to the runtime.
/// bastion's lifecycle callbacks, invoked on start, restart and stop.
#[verifier::external_type_specification]
#[verifier::external_body]
pub struct ExCallbacks(bastion::Callbacks);

/// bastion's restart policy: whether and how children are resurrected.
#[verifier::external_type_specification]
#[verifier::external_body]
pub struct ExRestartStrategy(bastion::supervisor::RestartStrategy);

/// bastion's supervision strategy: how one child's failure fans out.
#[verifier::external_type_specification]
#[verifier::external_body]
pub struct ExSupervisionStrategy(bastion::supervisor::SupervisionStrategy);

/// bastion's message routing policy among replicas.
#[verifier::external_type_specification]
#[verifier::external_body]
pub struct ExDispatcher(bastion::dispatcher::Dispatcher);

/// bastion's symbolic address under which an actor group is reachable.
#[verifier::external_type_specification]
#[verifier::external_body]
pub struct ExDistributor(bastion::distributor::Distributor);

/// bastion's dynamic-resizing policy for a child group.
#[verifier::external_type_specification]
#[verifier::external_body]
pub struct ExResizer(bastion::resizer::OptimalSizeExploringResizer);

/// bastion's supervisor builder, shaped before the supervisor starts.
#[verifier::external_type_specification]
#[verifier::external_body]
pub struct ExSupervisor(bastion::supervisor::Supervisor);

/// bastion's handle to a started supervisor.
#[verifier::external_type_specification]
#[verifier::external_body]
pub struct ExSupervisorRef(bastion::supervisor::SupervisorRef);

/// bastion's child-group builder, shaped before the group is spawned.
#[verifier::external_type_specification]
#[verifier::external_body]
pub struct ExChildren(bastion::children::Children);

/// Relies on bastion's Supervisor::with_callbacks: stores the supervisor-level
/// lifecycle callbacks on the builder and returns it.
#[verifier::external_body]
pub(crate) fn supervisor_with_callbacks(
    sp: bastion::supervisor::Supervisor,
    callbacks: bastion::Callbacks,
) -> bastion::supervisor::Supervisor {
    sp.with_callbacks(callbacks)
}

/// Relies on bastion's Supervisor::with_restart_strategy: stores the restart
/// policy on the builder and returns it.
#[verifier::external_body]
pub(crate) fn supervisor_with_restart_strategy(
    sp: bastion::supervisor::Supervisor,
    restart_strategy: bastion::supervisor::RestartStrategy,
) -> bastion::supervisor::Supervisor {
    sp.with_restart_strategy(restart_strategy)
}

/// Relies on bastion's Supervisor::with_strategy: stores the supervision
/// strategy on the builder and returns it.
#[verifier::external_body]
pub(crate) fn supervisor_with_strategy(
    sp: bastion::supervisor::Supervisor,
    strategy: bastion::supervisor::SupervisionStrategy,
) -> bastion::supervisor::Supervisor {
    sp.with_strategy(strategy)
}

/// Relies on bastion's Children::with_callbacks: stores the per-child
/// lifecycle callbacks on the builder and returns it.
#[verifier::external_body]
pub(crate) fn children_with_callbacks(
    children: bastion::children::Children,
    callbacks: bastion::Callbacks,
) -> bastion::children::Children {
    children.with_callbacks(callbacks)
}

/// Relies on bastion's Children::with_dispatcher: stores the message dispatch
/// policy on the builder and returns it.
#[verifier::external_body]
pub(crate) fn children_with_dispatcher(
    children: bastion::children::Children,
    dispatcher: bastion::dispatcher::Dispatcher,
) -> bastion::children::Children {
    children.with_dispatcher(dispatcher)
}

/// Relies on bastion's Children::with_distributor: stores the named address
/// on the builder and returns it.
#[verifier::external_body]
pub(crate) fn children_with_distributor(
    children: bastion::children::Children,
    distributor: bastion::distributor::Distributor,
) -> bastion::children::Children {
    children.with_distributor(distributor)
}

/// Relies on bastion's Children::with_heartbeat_tick: stores the liveness
/// tick interval on the builder and returns it.
#[verifier::external_body]
pub(crate) fn children_with_heartbeat_tick(
    children: bastion::children::Children,
    interval: core::time::Duration,
) -> bastion::children::Children {
    children.with_heartbeat_tick(interval)
}

/// Relies on bastion's Children::with_name: stores the display name on the
/// builder and returns it.
#[verifier::external_body]
pub(crate) fn children_with_name(
    children: bastion::children::Children,
    name: String,
) -> bastion::children::Children {
    children.with_name(name)
}

/// Relies on bastion's Children::with_redundancy: stores the replica count on
/// the builder and returns it.
#[verifier::external_body]
pub(crate) fn children_with_redundancy(
    children: bastion::children::Children,
    redundancy: usize,
) -> bastion::children::Children {
    children.with_redundancy(redundancy)
}

/// Relies on bastion's Children::with_resizer: stores the dynamic-resizing
/// policy on the builder and returns it.
#[verifier::external_body]
pub(crate) fn children_with_resizer(
    children: bastion::children::Children,
    resizer: bastion::resizer::OptimalSizeExploringResizer,
) -> bastion::children::Children {
    children.with_resizer(resizer)
}

/// Relies on bastion's Bastion::supervisor: creates a supervisor under the
/// system's root, letting the given configuration shape it, and returns a
/// reference to it, or Err when the system refuses the creation.
#[verifier::external_body]
pub(crate) fn system_supervisor(cfg: SupervisorConfig) -> Result<
    bastion::supervisor::SupervisorRef,
    (),
> {
    bastion::Bastion::supervisor(|sp| crate::config::configure_supervisor(sp, cfg))
}

/// Relies on bastion's SupervisorRef::stop: asks the supervisor to stop its
/// supervised subtree; Err when the message cannot be delivered.
#[verifier::external_body]
pub(crate) fn supervisor_stop(sp: &bastion::supervisor::SupervisorRef) -> Result<(), ()> {
    sp.stop()
}

/// Relies on bastion's SupervisorRef::kill: asks the supervisor to kill its
/// supervised subtree; Err when the message cannot be delivered.
#[verifier::external_body]
pub(crate) fn supervisor_kill(sp: &bastion::supervisor::SupervisorRef) -> Result<(), ()> {
    sp.kill()
}

/// Relies on bastion's Distributor::named: interns the symbolic address under
/// which an actor group can be reached.
#[verifier::external_body]
pub(crate) fn distributor_named(name: &str) -> bastion::distributor::Distributor {
    bastion::distributor::Distributor::named(name)
}

/// Create a supervisor shaped by the given configuration, surfacing the
/// runtime's refusal as an initialization error.
pub fn create_supervisor(cfg: SupervisorConfig) -> (r: Result<
    bastion::supervisor::SupervisorRef,
    ActorError,
>)
    ensures
        r matches Err(e) ==> e == ActorError::UnableToInitSupervisor,
{
    match system_supervisor(cfg) {
        Ok(sp) => Ok(sp),
        Err(()) => Err(ActorError::UnableToInitSupervisor),
    }
}

/// Surface the runtime's answer to a child-group creation as the caller's
/// result: the created value as it is, a refusal as the initialization error.
pub fn created_children<T>(creation: Result<T, ()>) -> (r: Result<T, ActorError>)
    ensures
        match r {
            Ok(v) => creation == Ok::<T, ()>(v),
            Err(e) => creation is Err && e == ActorError::UnableToInitChildren,
        },
{
    match creation {
        Ok(v) => Ok(v),
        Err(()) => Err(ActorError::UnableToInitChildren),
    }
}

} // verus!
