use actor_core::aggregate::{Aggregate, ClientState};
use actor_core::commands::{ClientCommand, ClientError};
use actor_core::error::ActorError;
use actor_core::events::ClientEvent;

fn state_of(msgs: &[&str]) -> ClientState {
    ClientState { messages: msgs.iter().map(|m| m.to_string()).collect() }
}

#[test]
fn add_on_empty_state_emits_full_list() {
    let state = state_of(&[]);
    let events = state
        .handle(ClientCommand::Add(vec!["hello".to_string()]), &())
        .expect("append command must succeed");
    assert_eq!(events, vec![ClientEvent::MessagesAdded(vec!["hello".to_string()])]);

    let mut state = state;
    for ev in events {
        state.apply(ev);
    }
    assert_eq!(state.messages, vec!["hello".to_string()]);
}

#[test]
fn add_appends_to_prior_messages() {
    let state = state_of(&["hello"]);
    let events = state
        .handle(ClientCommand::Add(vec!["world".to_string()]), &())
        .expect("append command must succeed");
    assert_eq!(
        events,
        vec![ClientEvent::MessagesAdded(vec!["hello".to_string(), "world".to_string()])]
    );

    let mut state = state;
    for ev in events {
        state.apply(ev);
    }
    assert_eq!(state.messages, vec!["hello".to_string(), "world".to_string()]);
}

#[test]
fn panic_command_emits_one_payload_free_event() {
    let state = state_of(&["hello"]);
    let events = state.handle(ClientCommand::Panic, &()).expect("panic command must succeed");
    assert_eq!(events, vec![ClientEvent::Paniced]);

    let mut state = state;
    for ev in events {
        state.apply(ev);
    }
    assert_eq!(state.messages, vec!["hello".to_string()]);
}

#[test]
fn reapplying_the_same_event_is_idempotent() {
    let mut state = state_of(&["a"]);
    let ev = ClientEvent::MessagesAdded(vec!["a".to_string(), "b".to_string()]);
    state.apply(ev.clone());
    let once = state.messages.clone();
    state.apply(ev);
    assert_eq!(state.messages, once);
}

#[test]
fn aggregate_type_is_client() {
    assert_eq!(ClientState::aggregate_type(), "client");
}

#[test]
fn event_identity_carries_type_and_version() {
    let added = ClientEvent::MessagesAdded(vec![]);
    assert_eq!(added.event_type(), "Messages added");
    assert_eq!(added.event_version(), "1.0");
    let paniced = ClientEvent::Paniced;
    assert_eq!(paniced.event_type(), "Paniced");
    assert_eq!(paniced.event_version(), "1.0");
}

#[test]
fn error_messages_name_the_failed_operation() {
    assert_eq!(ActorError::UnableToInitSupervisor.message(), "Unable to initialize supervisor");
    assert_eq!(ActorError::UnableToInitChildren.message(), "Unable to initialize children");
    assert_eq!(ActorError::StopError.message(), "Supervisor stop error");
    assert_eq!(ActorError::KillError.message(), "Supervisor kill error");
    assert_eq!(ActorError::AddExecutorFailed.message(), "Add executor failed");
    assert_eq!(ClientError::CommandRejected.message(), "Command rejected");
}
