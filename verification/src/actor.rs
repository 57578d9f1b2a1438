use vstd::prelude::*;
use core::marker::PhantomData;
use crate::config::{merge_children_config, merge_supervisor_config, ChildrenConfig, SupervisorConfig};
use crate::traits::TActor;

verus! {

/// A generic, fluent configuration object for starting an actor variant `A`
/// under a supervision tree. It holds the same knobs as the variant's own
/// declared configuration, all initially unset; each `with_` call sets one
/// knob and returns the builder. When the builder is resolved, its explicit
/// overrides take precedence over the variant's declared defaults, which take
/// precedence over "unset".
pub struct Actor<A> {
    pub supervisor_callbacks: Option<bastion::Callbacks>,
    pub restart_strategy: Option<bastion::supervisor::RestartStrategy>,
    pub strategy: Option<bastion::supervisor::SupervisionStrategy>,
    pub children_callbacks: Option<bastion::Callbacks>,
    pub dispatcher: Option<bastion::dispatcher::Dispatcher>,
    pub distributor: Option<bastion::distributor::Distributor>,
    pub heartbeat_tick: Option<core::time::Duration>,
    pub name: Option<String>,
    pub redundancy: Option<usize>,
    pub resizer: Option<bastion::resizer::OptimalSizeExploringResizer>,
    pub phantom_actor: PhantomData<A>,
}

impl<A> Actor<A> {
    /// A builder with every knob unset.
    pub fn default() -> (r: Self)
        ensures
            r.supervisor_callbacks is None,
            r.restart_strategy is None,
            r.strategy is None,
            r.children_callbacks is None,
            r.dispatcher is None,
            r.distributor is None,
            r.heartbeat_tick is None,
            r.name is None,
            r.redundancy is None,
            r.resizer is None,
    {
        Self {
            supervisor_callbacks: None,
            restart_strategy: None,
            strategy: None,
            children_callbacks: None,
            dispatcher: None,
            distributor: None,
            heartbeat_tick: None,
            name: None,
            redundancy: None,
            resizer: None,
            phantom_actor: PhantomData,
        }
    }

    /// Split the builder's knobs into the supervisor-level and child-level
    /// override configurations, unchanged.
    pub fn into_configs(self) -> (r: (SupervisorConfig, ChildrenConfig))
        ensures
            r.0.callbacks == self.supervisor_callbacks,
            r.0.restart_strategy == self.restart_strategy,
            r.0.strategy == self.strategy,
            r.1.callbacks == self.children_callbacks,
            r.1.dispatcher == self.dispatcher,
            r.1.distributor == self.distributor,
            r.1.heartbeat_tick == self.heartbeat_tick,
            r.1.name == self.name,
            r.1.redundancy == self.redundancy,
            r.1.resizer == self.resizer,
    {
        let Actor {
            supervisor_callbacks,
            restart_strategy,
            strategy,
            children_callbacks,
            dispatcher,
            distributor,
            heartbeat_tick,
            name,
            redundancy,
            resizer,
            phantom_actor: _,
        } = self;
        (
            SupervisorConfig { callbacks: supervisor_callbacks, restart_strategy, strategy },
            ChildrenConfig {
                callbacks: children_callbacks,
                dispatcher,
                distributor,
                heartbeat_tick,
                name,
                redundancy,
                resizer,
            },
        )
    }

}

impl<A: TActor + 'static> Actor<A> {
    /// The configuration the actor type itself declares, gathered from its
    /// capability interface: each knob is present exactly when the type
    /// declares it, and the plain-valued knobs carry the declared values.
    pub fn declared_configs() -> (r: (SupervisorConfig, ChildrenConfig))
        ensures
            r.0.callbacks is Some <==> A::declares_supervisor_callbacks(),
            r.0.restart_strategy is Some <==> A::declares_restart_strategy(),
            r.0.strategy is Some <==> A::declares_strategy(),
            r.1.callbacks is Some <==> A::declares_children_callbacks(),
            r.1.dispatcher is Some <==> A::declares_dispatcher(),
            r.1.distributor is Some <==> A::declares_distributor(),
            r.1.heartbeat_tick == A::spec_heartbeat_tick(),
            match r.1.name {
                Some(n) => A::spec_name() matches Some(s) && n@ == s,
                None => A::spec_name() is None,
            },
            r.1.redundancy == A::spec_redundancy(),
            r.1.resizer is Some <==> A::declares_resizer(),
    {
        (
            SupervisorConfig {
                callbacks: A::with_supervisor_callbacks(),
                restart_strategy: A::with_restart_strategy(),
                strategy: A::with_strategy(),
            },
            ChildrenConfig {
                callbacks: A::with_children_callbacks(),
                dispatcher: A::with_dispatcher(),
                distributor: A::with_distributor(),
                heartbeat_tick: A::with_heartbeat_tick(),
                name: A::with_name(),
                redundancy: A::with_redundancy(),
                resizer: A::with_resizer(),
            },
        )
    }

    /// Resolve the final configuration: the actor type's declared defaults,
    /// overridden knob by knob by whatever this builder set. Every knob this
    /// builder set survives into the result; every knob it left unset falls
    /// back to what the type declares.
    pub fn resolved_configs(self) -> (r: (SupervisorConfig, ChildrenConfig))
        ensures
            self.supervisor_callbacks is Some ==> r.0.callbacks == self.supervisor_callbacks,
            self.restart_strategy is Some ==> r.0.restart_strategy == self.restart_strategy,
            self.strategy is Some ==> r.0.strategy == self.strategy,
            self.children_callbacks is Some ==> r.1.callbacks == self.children_callbacks,
            self.dispatcher is Some ==> r.1.dispatcher == self.dispatcher,
            self.distributor is Some ==> r.1.distributor == self.distributor,
            self.heartbeat_tick is Some ==> r.1.heartbeat_tick == self.heartbeat_tick,
            self.name is Some ==> r.1.name == self.name,
            self.redundancy is Some ==> r.1.redundancy == self.redundancy,
            self.resizer is Some ==> r.1.resizer == self.resizer,
            self.supervisor_callbacks is None ==> (r.0.callbacks is Some
                <==> A::declares_supervisor_callbacks()),
            self.restart_strategy is None ==> (r.0.restart_strategy is Some
                <==> A::declares_restart_strategy()),
            self.strategy is None ==> (r.0.strategy is Some <==> A::declares_strategy()),
            self.children_callbacks is None ==> (r.1.callbacks is Some
                <==> A::declares_children_callbacks()),
            self.dispatcher is None ==> (r.1.dispatcher is Some <==> A::declares_dispatcher()),
            self.distributor is None ==> (r.1.distributor is Some <==> A::declares_distributor()),
            self.heartbeat_tick is None ==> r.1.heartbeat_tick == A::spec_heartbeat_tick(),
            self.name is None ==> match r.1.name {
                Some(n) => A::spec_name() matches Some(s) && n@ == s,
                None => A::spec_name() is None,
            },
            self.redundancy is None ==> r.1.redundancy == A::spec_redundancy(),
            self.resizer is None ==> (r.1.resizer is Some <==> A::declares_resizer()),
    {
        let (sup_defaults, ch_defaults) = Self::declared_configs();
        let (sup_overrides, ch_overrides) = self.into_configs();
        (
            merge_supervisor_config(sup_defaults, sup_overrides),
            merge_children_config(ch_defaults, ch_overrides),
        )
    }

    // For supervisor
    pub fn with_supervisor_callbacks(self, callbacks: bastion::Callbacks) -> (r: Self)
        ensures
            r == (Actor { supervisor_callbacks: Some(callbacks), ..self }),
    {
        Self { supervisor_callbacks: Some(callbacks), ..self }
    }

    pub fn with_restart_strategy(self, restart_strategy: bastion::supervisor::RestartStrategy) -> (r:
        Self)
        ensures
            r == (Actor { restart_strategy: Some(restart_strategy), ..self }),
    {
        Self { restart_strategy: Some(restart_strategy), ..self }
    }

    pub fn with_strategy(self, strategy: bastion::supervisor::SupervisionStrategy) -> (r: Self)
        ensures
            r == (Actor { strategy: Some(strategy), ..self }),
    {
        Self { strategy: Some(strategy), ..self }
    }

    // For children
    pub fn with_children_callbacks(self, callbacks: bastion::Callbacks) -> (r: Self)
        ensures
            r == (Actor { children_callbacks: Some(callbacks), ..self }),
    {
        Self { children_callbacks: Some(callbacks), ..self }
    }

    pub fn with_dispatcher(self, dispatcher: bastion::dispatcher::Dispatcher) -> (r: Self)
        ensures
            r == (Actor { dispatcher: Some(dispatcher), ..self }),
    {
        Self { dispatcher: Some(dispatcher), ..self }
    }

    pub fn with_distributor(self, distributor: bastion::distributor::Distributor) -> (r: Self)
        ensures
            r == (Actor { distributor: Some(distributor), ..self }),
    {
        Self { distributor: Some(distributor), ..self }
    }

    pub fn with_heartbeat_tick(self, interval: core::time::Duration) -> (r: Self)
        ensures
            r == (Actor { heartbeat_tick: Some(interval), ..self }),
    {
        Self { heartbeat_tick: Some(interval), ..self }
    }

    pub fn with_name(self, name: String) -> (r: Self)
        ensures
            r == (Actor { name: Some(name), ..self }),
    {
        Self { name: Some(name), ..self }
    }

    pub fn with_redundancy(self, redundancy: usize) -> (r: Self)
        ensures
            r == (Actor { redundancy: Some(redundancy), ..self }),
    {
        Self { redundancy: Some(redundancy), ..self }
    }

    pub fn with_resizer(self, resizer: bastion::resizer::OptimalSizeExploringResizer) -> (r: Self)
        ensures
            r == (Actor { resizer: Some(resizer), ..self }),
    {
        Self { resizer: Some(resizer), ..self }
    }
}

} // verus!
