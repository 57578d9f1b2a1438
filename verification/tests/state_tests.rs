use actor_core::aggregate::ClientState;
use actor_core::state::State;

#[test]
fn upgrade_while_owner_is_alive_sees_the_same_state() {
    let owner = State::new(ClientState { messages: vec!["kept".to_string()] });
    let weak = owner.downgrade();

    let resolved = State::upgrade(weak);
    {
        let guard = resolved.0.try_read().expect("no writer is holding the lock");
        assert_eq!(guard.messages, vec!["kept".to_string()]);
    }

    // A write through the resolved handle is a write to the owner's cell:
    // both are the same logical state.
    {
        let mut guard = resolved.0.try_write().expect("no reader is holding the lock");
        guard.messages.push("shared".to_string());
    }
    let guard = owner.0.try_read().expect("no writer is holding the lock");
    assert_eq!(guard.messages, vec!["kept".to_string(), "shared".to_string()]);
}

#[test]
fn cloned_weak_handles_resolve_to_the_same_cell() {
    let owner = State::new(ClientState { messages: vec![] });
    let weak = owner.downgrade();
    let weak_twin = weak.clone();

    {
        let mut guard = owner.0.try_write().expect("no reader is holding the lock");
        guard.messages.push("one".to_string());
    }

    let resolved = State::upgrade(weak_twin);
    let guard = resolved.0.try_read().expect("no writer is holding the lock");
    assert_eq!(guard.messages, vec!["one".to_string()]);
}
