use actor_core::client_actor::ClientActor;
use actor_core::config::SupervisorConfig;
use actor_core::error::ActorError;
use actor_core::runtime::{create_supervisor, created_children};
use actor_core::traits::TActor;
use bastion::Bastion;

#[test]
fn accepted_child_group_creation_passes_through() {
    let r: Result<u32, ActorError> = created_children(Ok(5u32));
    assert_eq!(r.unwrap(), 5);
}

#[test]
fn refused_child_group_creation_maps_to_the_children_error() {
    let r: Result<u32, ActorError> = created_children(Err(()));
    assert!(matches!(r, Err(ActorError::UnableToInitChildren)));
}

#[test]
fn supervisor_lifecycle_stop_and_kill_succeed() {
    Bastion::init();
    Bastion::start();

    let cfg = SupervisorConfig { callbacks: None, restart_strategy: None, strategy: None };
    let supervisor = create_supervisor(cfg).expect("the running system accepts a supervisor");
    let actor = ClientActor::with_supervisor(supervisor);
    actor.stop().expect("stopping a live supervisor succeeds");

    let cfg = SupervisorConfig { callbacks: None, restart_strategy: None, strategy: None };
    let supervisor = create_supervisor(cfg).expect("the running system accepts a supervisor");
    let actor = ClientActor::with_supervisor(supervisor);
    actor.kill().expect("killing a live supervisor succeeds");

    Bastion::stop();
}
