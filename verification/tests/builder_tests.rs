use std::time::Duration;

use actor_core::actor::Actor;
use actor_core::client_actor::ClientActor;
use actor_core::config::{merge_children_config, merge_supervisor_config, ChildrenConfig, SupervisorConfig};
use actor_core::traits::TActor;
use bastion::supervisor::RestartStrategy;
use bastion::Callbacks;

fn empty_children_config() -> ChildrenConfig {
    ChildrenConfig {
        callbacks: None,
        dispatcher: None,
        distributor: None,
        heartbeat_tick: None,
        name: None,
        redundancy: None,
        resizer: None,
    }
}

fn empty_supervisor_config() -> SupervisorConfig {
    SupervisorConfig { callbacks: None, restart_strategy: None, strategy: None }
}

#[test]
fn fresh_builder_has_every_knob_unset() {
    let builder = ClientActor::default();
    assert!(builder.supervisor_callbacks.is_none());
    assert!(builder.restart_strategy.is_none());
    assert!(builder.strategy.is_none());
    assert!(builder.children_callbacks.is_none());
    assert!(builder.dispatcher.is_none());
    assert!(builder.distributor.is_none());
    assert!(builder.heartbeat_tick.is_none());
    assert!(builder.name.is_none());
    assert!(builder.redundancy.is_none());
    assert!(builder.resizer.is_none());
}

#[test]
fn setters_set_their_knob_and_chain() {
    let builder = ClientActor::default()
        .with_name("log".to_string())
        .with_redundancy(3)
        .with_heartbeat_tick(Duration::from_secs(5));
    assert_eq!(builder.name, Some("log".to_string()));
    assert_eq!(builder.redundancy, Some(3));
    assert_eq!(builder.heartbeat_tick, Some(Duration::from_secs(5)));
    assert!(builder.dispatcher.is_none());
}

#[test]
fn merge_prefers_the_override_when_both_are_set() {
    let mut defaults = empty_children_config();
    defaults.name = Some("declared".to_string());
    defaults.redundancy = Some(1);
    let mut overrides = empty_children_config();
    overrides.name = Some("explicit".to_string());
    let merged = merge_children_config(defaults, overrides);
    assert_eq!(merged.name, Some("explicit".to_string()));
    assert_eq!(merged.redundancy, Some(1));
    assert!(merged.heartbeat_tick.is_none());
}

#[test]
fn merge_takes_whichever_side_is_set() {
    let mut defaults = empty_children_config();
    defaults.heartbeat_tick = Some(Duration::from_millis(100));
    let mut overrides = empty_children_config();
    overrides.redundancy = Some(7);
    let merged = merge_children_config(defaults, overrides);
    assert_eq!(merged.heartbeat_tick, Some(Duration::from_millis(100)));
    assert_eq!(merged.redundancy, Some(7));
    assert!(merged.name.is_none());
    assert!(merged.dispatcher.is_none());
}

#[test]
fn merge_supervisor_knobs_follow_the_same_precedence() {
    let mut defaults = empty_supervisor_config();
    defaults.restart_strategy = Some(RestartStrategy::default());
    let overrides = empty_supervisor_config();
    let merged = merge_supervisor_config(defaults, overrides);
    assert!(merged.restart_strategy.is_some());
    assert!(merged.callbacks.is_none());
    assert!(merged.strategy.is_none());

    let defaults = empty_supervisor_config();
    let mut overrides = empty_supervisor_config();
    overrides.callbacks = Some(Callbacks::new());
    let merged = merge_supervisor_config(defaults, overrides);
    assert!(merged.callbacks.is_some());
    assert!(merged.restart_strategy.is_none());
}

#[test]
fn declared_configs_reflect_the_actor_type() {
    let (sup, ch) = Actor::<ClientActor>::declared_configs();
    assert!(sup.callbacks.is_none());
    assert!(sup.restart_strategy.is_none());
    assert!(sup.strategy.is_none());
    assert!(ch.callbacks.is_none());
    assert!(ch.dispatcher.is_none());
    assert!(ch.distributor.is_some());
    assert!(ch.heartbeat_tick.is_none());
    assert!(ch.name.is_none());
    assert!(ch.redundancy.is_none());
    assert!(ch.resizer.is_none());
}

#[test]
fn resolving_an_untouched_builder_yields_the_declared_configuration() {
    let (sup, ch) = ClientActor::default().resolved_configs();
    assert!(ch.distributor.is_some());
    assert!(ch.name.is_none());
    assert!(ch.redundancy.is_none());
    assert!(sup.restart_strategy.is_none());
}

#[test]
fn resolved_configs_keep_declared_knobs_and_builder_wins() {
    let builder: Actor<ClientActor> = ClientActor::default().with_name("renamed".to_string());
    let (sup, ch) = builder.resolved_configs();
    // ClientActor declares only a distributor; the builder's name override
    // must survive beside it.
    assert!(ch.distributor.is_some());
    assert_eq!(ch.name, Some("renamed".to_string()));
    assert!(ch.redundancy.is_none());
    assert!(sup.callbacks.is_none());
    assert!(sup.restart_strategy.is_none());
    assert!(sup.strategy.is_none());
}
