use vstd::prelude::*;
use crate::runtime::{
    children_with_callbacks, children_with_dispatcher, children_with_distributor,
    children_with_heartbeat_tick, children_with_name, children_with_redundancy,
    children_with_resizer, supervisor_with_callbacks, supervisor_with_restart_strategy,
    supervisor_with_strategy,
};

verus! {

/// The supervisor-level knobs of an actor's configuration. Every knob is
/// independently optional: omission leaves the runtime's own default in
/// force and never forces another knob to a particular value.
pub struct SupervisorConfig {
    pub callbacks: Option<bastion::Callbacks>,
    pub restart_strategy: Option<bastion::supervisor::RestartStrategy>,
    pub strategy: Option<bastion::supervisor::SupervisionStrategy>,
}

/// The child-level knobs of an actor's configuration, each independently
/// optional.
pub struct ChildrenConfig {
    pub callbacks: Option<bastion::Callbacks>,
    pub dispatcher: Option<bastion::dispatcher::Dispatcher>,
    pub distributor: Option<bastion::distributor::Distributor>,
    pub heartbeat_tick: Option<core::time::Duration>,
    pub name: Option<String>,
    pub redundancy: Option<usize>,
    pub resizer: Option<bastion::resizer::OptimalSizeExploringResizer>,
}

/// Merge an actor type's declared supervisor-level defaults with a builder's
/// overrides. For each knob: if both are set the builder's value wins; if
/// only one is set that one is taken; if neither, the knob stays unset.
pub fn merge_supervisor_config(defaults: SupervisorConfig, overrides: SupervisorConfig) -> (r:
    SupervisorConfig)
    ensures
        r.callbacks == if overrides.callbacks is Some {
            overrides.callbacks
        } else {
            defaults.callbacks
        },
        r.restart_strategy == if overrides.restart_strategy is Some {
            overrides.restart_strategy
        } else {
            defaults.restart_strategy
        },
        r.strategy == if overrides.strategy is Some {
            overrides.strategy
        } else {
            defaults.strategy
        },
{
    SupervisorConfig {
        callbacks: match overrides.callbacks {
            Some(v) => Some(v),
            None => defaults.callbacks,
        },
        restart_strategy: match overrides.restart_strategy {
            Some(v) => Some(v),
            None => defaults.restart_strategy,
        },
        strategy: match overrides.strategy {
            Some(v) => Some(v),
            None => defaults.strategy,
        },
    }
}

/// Merge an actor type's declared child-level defaults with a builder's
/// overrides, the builder winning knob by knob, as for the supervisor level.
pub fn merge_children_config(defaults: ChildrenConfig, overrides: ChildrenConfig) -> (r:
    ChildrenConfig)
    ensures
        r.callbacks == if overrides.callbacks is Some {
            overrides.callbacks
        } else {
            defaults.callbacks
        },
        r.dispatcher == if overrides.dispatcher is Some {
            overrides.dispatcher
        } else {
            defaults.dispatcher
        },
        r.distributor == if overrides.distributor is Some {
            overrides.distributor
        } else {
            defaults.distributor
        },
        r.heartbeat_tick == if overrides.heartbeat_tick is Some {
            overrides.heartbeat_tick
        } else {
            defaults.heartbeat_tick
        },
        r.name == if overrides.name is Some {
            overrides.name
        } else {
            defaults.name
        },
        r.redundancy == if overrides.redundancy is Some {
            overrides.redundancy
        } else {
            defaults.redundancy
        },
        r.resizer == if overrides.resizer is Some {
            overrides.resizer
        } else {
            defaults.resizer
        },
{
    ChildrenConfig {
        callbacks: match overrides.callbacks {
            Some(v) => Some(v),
            None => defaults.callbacks,
        },
        dispatcher: match overrides.dispatcher {
            Some(v) => Some(v),
            None => defaults.dispatcher,
        },
        distributor: match overrides.distributor {
            Some(v) => Some(v),
            None => defaults.distributor,
        },
        heartbeat_tick: match overrides.heartbeat_tick {
            Some(v) => Some(v),
            None => defaults.heartbeat_tick,
        },
        name: match overrides.name {
            Some(v) => Some(v),
            None => defaults.name,
        },
        redundancy: match overrides.redundancy {
            Some(v) => Some(v),
            None => defaults.redundancy,
        },
        resizer: match overrides.resizer {
            Some(v) => Some(v),
            None => defaults.resizer,
        },
    }
}

/// Shape a supervisor builder by the merged configuration: each knob that is
/// set is handed to the runtime, each unset knob is left untouched.
pub fn configure_supervisor(
    sp: bastion::supervisor::Supervisor,
    cfg: SupervisorConfig,
) -> bastion::supervisor::Supervisor {
    let SupervisorConfig { callbacks, restart_strategy, strategy } = cfg;
    let mut sp = sp;
    match callbacks {
        Some(v) => {
            sp = supervisor_with_callbacks(sp, v);
        },
        None => {},
    }
    match restart_strategy {
        Some(v) => {
            sp = supervisor_with_restart_strategy(sp, v);
        },
        None => {},
    }
    match strategy {
        Some(v) => {
            sp = supervisor_with_strategy(sp, v);
        },
        None => {},
    }
    sp
}

/// Shape a child-group builder by the merged configuration, knob by knob.
pub fn configure_children(
    children: bastion::children::Children,
    cfg: ChildrenConfig,
) -> bastion::children::Children {
    let ChildrenConfig {
        callbacks,
        dispatcher,
        distributor,
        heartbeat_tick,
        name,
        redundancy,
        resizer,
    } = cfg;
    let mut children = children;
    match callbacks {
        Some(v) => {
            children = children_with_callbacks(children, v);
        },
        None => {},
    }
    match dispatcher {
        Some(v) => {
            children = children_with_dispatcher(children, v);
        },
        None => {},
    }
    match distributor {
        Some(v) => {
            children = children_with_distributor(children, v);
        },
        None => {},
    }
    match heartbeat_tick {
        Some(v) => {
            children = children_with_heartbeat_tick(children, v);
        },
        None => {},
    }
    match name {
        Some(v) => {
            children = children_with_name(children, v);
        },
        None => {},
    }
    match redundancy {
        Some(v) => {
            children = children_with_redundancy(children, v);
        },
        None => {},
    }
    match resizer {
        Some(v) => {
            children = children_with_resizer(children, v);
        },
        None => {},
    }
    children
}

} // verus!
