use vstd::prelude::*;
use crate::aggregate::{client_apply_all, client_handle, emitted_events, Aggregate, ClientState};
use crate::commands::{ClientCommand, ClientCommandV, ClientError};
use crate::events::{events_view, strings_view, ClientEvent, ClientEventV};

verus! {

/// One inbound message, classified by its declared shape: fire-and-forget
/// command, fire-and-forget event batch, request/reply query, or a shape the
/// loop does not recognize.
#[derive(Debug)]
pub enum ClientMessage {
    TellCommand(ClientCommand),
    TellEvents(Vec<ClientEvent>),
    AskMessages,
    Unrecognized,
}

/// What one loop iteration decides: route an emitted event batch onward,
/// report that a batch was applied, reply to the asking party, hand the
/// domain error back to the command's issuer, or log and drop an
/// unrecognized message.
#[derive(Debug)]
pub enum LoopAction {
    EmitEvents(Vec<ClientEvent>),
    Applied,
    ReplyMessages(Vec<String>),
    Rejected(ClientError),
    Ignored,
}

/// The views of a command batch, in order.
pub open spec fn commands_view(v: Seq<ClientCommand>) -> Seq<ClientCommandV> {
    v.map_values(|c: ClientCommand| c@)
}

/// Apply a batch of events to the state, in order, one at a time, under what
/// the surrounding loop holds as the exclusive write critical section.
pub fn apply_events(state: &mut ClientState, events: Vec<ClientEvent>)
    ensures
        final(state)@ == client_apply_all(old(state)@, events_view(events@)),
{
    let ghost all: Seq<ClientEventV> = events_view(events@);
    let mut rest = events;
    let ghost start: Seq<Seq<char>> = state@;
    while rest.len() > 0
        invariant
            client_apply_all(start, all) == client_apply_all(state@, events_view(rest@)),
        decreases rest.len(),
    {
        let ghost before: Seq<ClientEvent> = rest@;
        let ev = rest.remove(0);
        proof {
            assert(events_view(rest@) =~= events_view(before).drop_first());
        }
        state.apply(ev);
    }
    proof {
        assert(events_view(rest@) =~= Seq::<ClientEventV>::empty());
    }
}

/// One iteration of the per-actor processing routine: classify the message
/// and dispatch it to the state machine. A command is handled against the
/// current state without mutating it; an event batch is the only input that
/// mutates the state; a query replies with the complete current message
/// list; an unrecognized message is dropped, never fatal.
pub fn step(state: &mut ClientState, msg: ClientMessage) -> (act: LoopAction)
    ensures
        msg matches ClientMessage::TellCommand(c) ==> *final(state) == *old(state) && (match client_handle(
            old(state)@,
            c@,
        ) {
            Ok(evs_v) => act matches LoopAction::EmitEvents(evs) && events_view(evs@) == evs_v,
            Err(e) => act == LoopAction::Rejected(e),
        }),
        msg matches ClientMessage::TellEvents(evs) ==> final(state)@ == client_apply_all(
            old(state)@,
            events_view(evs@),
        ) && act == LoopAction::Applied,
        msg matches ClientMessage::AskMessages ==> *final(state) == *old(state) && (
        act matches LoopAction::ReplyMessages(m) && strings_view(m@) == old(state)@),
        msg matches ClientMessage::Unrecognized ==> *final(state) == *old(state) && act
            == LoopAction::Ignored,
{
    match msg {
        ClientMessage::TellCommand(c) => match state.handle(c, &()) {
            Ok(evs) => LoopAction::EmitEvents(evs),
            Err(e) => LoopAction::Rejected(e),
        },
        ClientMessage::TellEvents(evs) => {
            apply_events(state, evs);
            LoopAction::Applied
        },
        ClientMessage::AskMessages => {
            let ghost orig: Seq<String> = state.messages@;
            let reply = state.messages.clone();
            proof {
                assert forall|i: int| 0 <= i < orig.len() implies reply@[i] == orig[i] by {
                    assert(cloned::<String>(orig[i], reply@[i]));
                }
                assert(strings_view(reply@) =~= strings_view(orig));
            }
            LoopAction::ReplyMessages(reply)
        },
        ClientMessage::Unrecognized => LoopAction::Ignored,
    }
}

/// The state after the serialized loop has fully processed a sequence of
/// commands in receipt order: each command is handled against the state left
/// by its predecessor's events, and its own events are fully applied before
/// the next command is handled.
pub open spec fn serialized_run(s: Seq<Seq<char>>, cmds: Seq<ClientCommandV>) -> Seq<Seq<char>>
    decreases cmds.len(),
{
    if cmds.len() == 0 {
        s
    } else {
        serialized_run(client_apply_all(s, emitted_events(s, cmds[0])), cmds.drop_first())
    }
}

/// Process a batch of commands under the per-instance serialization
/// discipline: for each command in receipt order, handle it, then apply every
/// event it emitted, before the next command is handled.
pub fn process_commands(state: &mut ClientState, cmds: Vec<ClientCommand>)
    ensures
        final(state)@ == serialized_run(old(state)@, commands_view(cmds@)),
{
    let ghost all: Seq<ClientCommandV> = commands_view(cmds@);
    let mut rest = cmds;
    let ghost start: Seq<Seq<char>> = state@;
    while rest.len() > 0
        invariant
            serialized_run(start, all) == serialized_run(state@, commands_view(rest@)),
        decreases rest.len(),
    {
        let ghost before: Seq<ClientCommand> = rest@;
        let c = rest.remove(0);
        proof {
            assert(commands_view(rest@) =~= commands_view(before).drop_first());
        }
        let act = step(state, ClientMessage::TellCommand(c));
        match act {
            LoopAction::EmitEvents(evs) => {
                step(state, ClientMessage::TellEvents(evs));
            },
            _ => {},
        }
    }
    proof {
        assert(commands_view(rest@) =~= Seq::<ClientCommandV>::empty());
    }
}

/// Command/event ordering: when two commands reach the same actor instance
/// in order, the serialized loop applies every event derived from the first
/// before the second is handled, so the second's events are derived from,
/// and applied to, the state the first left behind.
pub proof fn lemma_command_event_ordering(
    s: Seq<Seq<char>>,
    c1: ClientCommandV,
    c2: ClientCommandV,
)
    ensures
        serialized_run(s, seq![c1, c2]) == ({
            let s1 = client_apply_all(s, emitted_events(s, c1));
            client_apply_all(s1, emitted_events(s1, c2))
        }),
{
    let two = seq![c1, c2];
    let s1 = client_apply_all(s, emitted_events(s, c1));
    assert(two.drop_first() =~= seq![c2]);
    assert(seq![c2].drop_first() =~= Seq::<ClientCommandV>::empty());
    assert(serialized_run(s, two) == serialized_run(s1, seq![c2]));
    assert(serialized_run(s1, seq![c2]) == serialized_run(
        client_apply_all(s1, emitted_events(s1, c2)),
        Seq::<ClientCommandV>::empty(),
    ));
}

} // verus!
