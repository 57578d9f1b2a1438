use vstd::prelude::*;
use crate::actor::Actor;

verus! {

/// The capability interface every actor variant implements: construct a
/// default builder, construct itself from a supervisor handle, and declare
/// its desired supervision and addressing configuration. Each knob accessor
/// returns None for knobs the variant does not care about; no shared base
/// implementation is required.
///
/// Each knob accessor is pinned to a spec-level declaration, so that the
/// variant's compiled-in configuration is a contract, not a convention: for
/// the runtime's opaque knob values the contract fixes whether the knob is
/// declared, and for the plain-valued knobs it fixes the declared value.
///
/// The variant's message-processing routine is installed by the embedding
/// that spawns the child group, since receiving messages suspends; the
/// decisions it takes per message live in this library (for the message-log
/// actor, in [`crate::message_loop::step`]).
pub trait TActor: Sized {
    /// The application state owned by one running instance of this variant.
    type State;

    /// Whether the variant declares supervisor-level lifecycle callbacks.
    spec fn declares_supervisor_callbacks() -> bool;

    /// Whether the variant declares a restart policy.
    spec fn declares_restart_strategy() -> bool;

    /// Whether the variant declares a supervision strategy.
    spec fn declares_strategy() -> bool;

    /// Whether the variant declares child-level lifecycle callbacks.
    spec fn declares_children_callbacks() -> bool;

    /// Whether the variant declares a message dispatch policy.
    spec fn declares_dispatcher() -> bool;

    /// Whether the variant declares a named address.
    spec fn declares_distributor() -> bool;

    /// The liveness tick interval the variant declares, if any.
    spec fn spec_heartbeat_tick() -> Option<core::time::Duration>;

    /// The display name the variant declares, if any.
    spec fn spec_name() -> Option<Seq<char>>;

    /// The replica count the variant declares, if any.
    spec fn spec_redundancy() -> Option<usize>;

    /// Whether the variant declares a dynamic-resizing policy.
    spec fn declares_resizer() -> bool;

    /// A fresh builder for this variant, every knob unset.
    fn default() -> Actor<Self>;

    /// Construct the variant's handle from the supervisor it runs under.
    fn with_supervisor(supervisor: bastion::supervisor::SupervisorRef) -> Self;

    fn with_supervisor_callbacks() -> (r: Option<bastion::Callbacks>)
        ensures
            r is Some <==> Self::declares_supervisor_callbacks(),
    ;

    fn with_restart_strategy() -> (r: Option<bastion::supervisor::RestartStrategy>)
        ensures
            r is Some <==> Self::declares_restart_strategy(),
    ;

    fn with_strategy() -> (r: Option<bastion::supervisor::SupervisionStrategy>)
        ensures
            r is Some <==> Self::declares_strategy(),
    ;

    fn with_children_callbacks() -> (r: Option<bastion::Callbacks>)
        ensures
            r is Some <==> Self::declares_children_callbacks(),
    ;

    fn with_dispatcher() -> (r: Option<bastion::dispatcher::Dispatcher>)
        ensures
            r is Some <==> Self::declares_dispatcher(),
    ;

    fn with_distributor() -> (r: Option<bastion::distributor::Distributor>)
        ensures
            r is Some <==> Self::declares_distributor(),
    ;

    fn with_heartbeat_tick() -> (r: Option<core::time::Duration>)
        ensures
            r == Self::spec_heartbeat_tick(),
    ;

    fn with_name() -> (r: Option<String>)
        ensures
            match r {
                Some(n) => Self::spec_name() matches Some(s) && n@ == s,
                None => Self::spec_name() is None,
            },
    ;

    fn with_redundancy() -> (r: Option<usize>)
        ensures
            r == Self::spec_redundancy(),
    ;

    fn with_resizer() -> (r: Option<bastion::resizer::OptimalSizeExploringResizer>)
        ensures
            r is Some <==> Self::declares_resizer(),
    ;
}

/// A marker for types that may serve as an actor's owned state.
pub trait TState {

}

} // verus!
