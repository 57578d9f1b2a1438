use actor_core::aggregate::ClientState;
use actor_core::commands::ClientCommand;
use actor_core::events::ClientEvent;
use actor_core::message_loop::{apply_events, process_commands, step, ClientMessage, LoopAction};

fn state_of(msgs: &[&str]) -> ClientState {
    ClientState { messages: msgs.iter().map(|m| m.to_string()).collect() }
}

#[test]
fn tell_command_emits_without_mutating() {
    let mut state = state_of(&["hello"]);
    let act = step(
        &mut state,
        ClientMessage::TellCommand(ClientCommand::Add(vec!["world".to_string()])),
    );
    match act {
        LoopAction::EmitEvents(evs) => {
            assert_eq!(
                evs,
                vec![ClientEvent::MessagesAdded(vec!["hello".to_string(), "world".to_string()])]
            );
        }
        other => panic!("expected an emitted event batch, got {other:?}"),
    }
    assert_eq!(state.messages, vec!["hello".to_string()]);
}

#[test]
fn tell_events_applies_batch_in_order() {
    let mut state = state_of(&[]);
    let batch = vec![
        ClientEvent::MessagesAdded(vec!["a".to_string()]),
        ClientEvent::MessagesAdded(vec!["a".to_string(), "b".to_string()]),
        ClientEvent::Paniced,
    ];
    let act = step(&mut state, ClientMessage::TellEvents(batch));
    assert!(matches!(act, LoopAction::Applied));
    assert_eq!(state.messages, vec!["a".to_string(), "b".to_string()]);
}

#[test]
fn ask_replies_with_complete_list() {
    let mut state = state_of(&["x", "y"]);
    let act = step(&mut state, ClientMessage::AskMessages);
    match act {
        LoopAction::ReplyMessages(reply) => {
            assert_eq!(reply, vec!["x".to_string(), "y".to_string()]);
        }
        other => panic!("expected a reply, got {other:?}"),
    }
    assert_eq!(state.messages, vec!["x".to_string(), "y".to_string()]);
}

#[test]
fn unrecognized_message_is_dropped() {
    let mut state = state_of(&["x"]);
    let act = step(&mut state, ClientMessage::Unrecognized);
    assert!(matches!(act, LoopAction::Ignored));
    assert_eq!(state.messages, vec!["x".to_string()]);
}

#[test]
fn back_to_back_commands_apply_in_receipt_order() {
    let mut state = state_of(&[]);
    process_commands(
        &mut state,
        vec![
            ClientCommand::Add(vec!["hello".to_string()]),
            ClientCommand::Add(vec!["world".to_string()]),
        ],
    );
    assert_eq!(state.messages, vec!["hello".to_string(), "world".to_string()]);
}

#[test]
fn reads_between_writes_observe_whole_states() {
    let mut state = state_of(&["pre"]);
    let before = match step(&mut state, ClientMessage::AskMessages) {
        LoopAction::ReplyMessages(reply) => reply,
        other => panic!("expected a reply, got {other:?}"),
    };
    assert_eq!(before, vec!["pre".to_string()]);

    apply_events(
        &mut state,
        vec![ClientEvent::MessagesAdded(vec!["pre".to_string(), "post".to_string()])],
    );

    let after = match step(&mut state, ClientMessage::AskMessages) {
        LoopAction::ReplyMessages(reply) => reply,
        other => panic!("expected a reply, got {other:?}"),
    };
    assert_eq!(after, vec!["pre".to_string(), "post".to_string()]);
}
